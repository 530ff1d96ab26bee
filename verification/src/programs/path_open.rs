//! Scripts of the `path_open` program.
//!
//! `path_open` and its open flags, and the read right of what it opens.

use vstd::prelude::*;
use crate::abi::{
    Call,
    ERRNO_BADF,
    ERRNO_EXIST,
    ERRNO_NOENT,
    ERRNO_NOTDIR,
    OFLAGS_CREAT,
    OFLAGS_DIRECTORY,
    OFLAGS_EXCL,
    RIGHTS_FD_READ,
};
use crate::script::{
    Check,
    Field,
    Guard,
    Message,
    Op,
    Script,
    ScriptView,
    Slot,
    must,
    refuse,
    succeed,
};

verus! {

/// The steps of `test_file_doesnt_exist`.
pub open spec fn test_file_doesnt_exist_ops() -> Seq<Op> {
    seq![
        refuse(
            Call::PathOpen { at: Slot::Scratch, path: "file", oflags: 0, base: 0, inheriting: 0 },
            ERRNO_NOENT,
            Message::Plain(">> trying to open a file that doesn't exist"),
            Message::Named(
                ">> opening a file that doesn't exist should return ERRNO_NOENT\nFound: ERRNO_\"",
                "\"",
            ),
        ),
    ]
}

/// Opening a missing file fails with `ERRNO_NOENT`.
pub fn test_file_doesnt_exist() -> (res: Script)
    ensures
        res@ == (ScriptView {
            ops: test_file_doesnt_exist_ops(),
            spaced: true,
            guard: Guard::Plain,
        }),
        res@ == crate::outcomes::file_doesnt_exist(),
{
    Script {
        ops: {
            let mut ops = Vec::new();
            ops.push(
                refuse(
                    Call::PathOpen {
                        at: Slot::Scratch,
                        path: "file",
                        oflags: 0,
                        base: 0,
                        inheriting: 0,
                    },
                    ERRNO_NOENT,
                    Message::Plain(">> trying to open a file that doesn't exist"),
                    Message::Named(
                        ">> opening a file that doesn't exist should return ERRNO_NOENT\nFound: ERRNO_\"",
                        "\"",
                    ),
                ),
            );
            ops
        },
        spaced: true,
        guard: Guard::Plain,
    }
}

/// The steps of `test_path_create`.
pub open spec fn test_path_create_ops() -> Seq<Op> {
    seq![
        succeed(
            Call::PathOpen {
                at: Slot::Scratch,
                path: "file",
                oflags: OFLAGS_CREAT,
                base: 0,
                inheriting: 0,
            },
            Message::Rendered(">> unexpected error while trying to open a simple file\n", ""),
        ),
        must(Call::PathUnlinkFile { at: Slot::Scratch, path: "file" }, "removing a file"),
    ]
}

/// Opening with `OFLAGS_CREAT` creates the file.
pub fn test_path_create() -> (res: Script)
    ensures
        res@ == (ScriptView {
            ops: test_path_create_ops(),
            spaced: true,
            guard: Guard::Plain,
        }),
        res@ == crate::outcomes::path_create(),
{
    Script {
        ops: vec![
            succeed(
                Call::PathOpen {
                    at: Slot::Scratch,
                    path: "file",
                    oflags: OFLAGS_CREAT,
                    base: 0,
                    inheriting: 0,
                },
                Message::Rendered(">> unexpected error while trying to open a simple file\n", ""),
            ),
            must(Call::PathUnlinkFile { at: Slot::Scratch, path: "file" }, "removing a file"),
        ],
        spaced: true,
        guard: Guard::Plain,
    }
}

/// The steps of `test_path_exists`.
pub open spec fn test_path_exists_ops() -> Seq<Op> {
    seq![
        must(
            Call::PathOpen {
                at: Slot::Scratch,
                path: "file",
                oflags: OFLAGS_CREAT,
                base: 0,
                inheriting: 0,
            },
            "creating a file",
        ),
        refuse(
            Call::PathOpen {
                at: Slot::Scratch,
                path: "file",
                oflags: OFLAGS_CREAT | OFLAGS_EXCL,
                base: 0,
                inheriting: 0,
            },
            ERRNO_EXIST,
            Message::Plain(
                ">> creating a file that already exists with OFLAGS_EXCL should return Err(ERRNO_EXIST):\nExpected: Err(ERRNO_EXIST)\nFound: Ok(Fd)",
            ),
            Message::Named(
                ">> creating a file that already exists with OFLAGS_EXCL should return ERRNO_EXIST:\nExpected: ERRNO_EXIST\nFound: ERRNO_",
                " ",
            ),
        ),
        must(Call::PathUnlinkFile { at: Slot::Scratch, path: "file" }, "removing a file"),
    ]
}

/// Creating an existing file with `OFLAGS_EXCL` fails with `ERRNO_EXIST`.
pub fn test_path_exists() -> (res: Script)
    ensures
        res@ == (ScriptView {
            ops: test_path_exists_ops(),
            spaced: true,
            guard: Guard::Plain,
        }),
        res@ == crate::outcomes::path_exists(),
{
    Script {
        ops: vec![
            must(
                Call::PathOpen {
                    at: Slot::Scratch,
                    path: "file",
                    oflags: OFLAGS_CREAT,
                    base: 0,
                    inheriting: 0,
                },
                "creating a file",
            ),
            refuse(
                Call::PathOpen {
                    at: Slot::Scratch,
                    path: "file",
                    oflags: OFLAGS_CREAT | OFLAGS_EXCL,
                    base: 0,
                    inheriting: 0,
                },
                ERRNO_EXIST,
                Message::Plain(
                    ">> creating a file that already exists with OFLAGS_EXCL should return Err(ERRNO_EXIST):\nExpected: Err(ERRNO_EXIST)\nFound: Ok(Fd)",
                ),
                Message::Named(
                    ">> creating a file that already exists with OFLAGS_EXCL should return ERRNO_EXIST:\nExpected: ERRNO_EXIST\nFound: ERRNO_",
                    " ",
                ),
            ),
            must(Call::PathUnlinkFile { at: Slot::Scratch, path: "file" }, "removing a file"),
        ],
        spaced: true,
        guard: Guard::Plain,
    }
}

/// The steps of `test_path_fd_notdir`.
pub open spec fn test_path_fd_notdir_ops() -> Seq<Op> {
    seq![
        must(
            Call::PathOpen {
                at: Slot::Scratch,
                path: "file",
                oflags: OFLAGS_CREAT,
                base: 0,
                inheriting: 0,
            },
            "creating a file",
        ),
        refuse(
            Call::PathOpen {
                at: Slot::Opened(0),
                path: "another_file",
                oflags: OFLAGS_CREAT,
                base: 0,
                inheriting: 0,
            },
            ERRNO_NOTDIR,
            Message::Plain(
                ">> non-directory fd should return Err(ERRNO_NOTDIR):\nExpected: Err(ERRNO_NOTDIR)\nFound: Ok(Fd)",
            ),
            Message::Named(
                ">> non-directory fd should return ERRNO_NOTDIR:\nExpected: ERRNO_NOTDIR\nFound: ERRNO_",
                "",
            ),
        ),
        must(Call::PathUnlinkFile { at: Slot::Scratch, path: "file" }, "removing a file"),
    ]
}

/// Opening under a file's descriptor fails with `ERRNO_NOTDIR`.
pub fn test_path_fd_notdir() -> (res: Script)
    ensures
        res@ == (ScriptView {
            ops: test_path_fd_notdir_ops(),
            spaced: true,
            guard: Guard::Plain,
        }),
        res@ == crate::outcomes::path_fd_notdir(),
{
    Script {
        ops: vec![
            must(
                Call::PathOpen {
                    at: Slot::Scratch,
                    path: "file",
                    oflags: OFLAGS_CREAT,
                    base: 0,
                    inheriting: 0,
                },
                "creating a file",
            ),
            refuse(
                Call::PathOpen {
                    at: Slot::Opened(0),
                    path: "another_file",
                    oflags: OFLAGS_CREAT,
                    base: 0,
                    inheriting: 0,
                },
                ERRNO_NOTDIR,
                Message::Plain(
                    ">> non-directory fd should return Err(ERRNO_NOTDIR):\nExpected: Err(ERRNO_NOTDIR)\nFound: Ok(Fd)",
                ),
                Message::Named(
                    ">> non-directory fd should return ERRNO_NOTDIR:\nExpected: ERRNO_NOTDIR\nFound: ERRNO_",
                    "",
                ),
            ),
            must(Call::PathUnlinkFile { at: Slot::Scratch, path: "file" }, "removing a file"),
        ],
        spaced: true,
        guard: Guard::Plain,
    }
}

/// The steps of `test_path_directory`.
pub open spec fn test_path_directory_ops() -> Seq<Op> {
    seq![
        must(
            Call::PathCreateDirectory { at: Slot::Scratch, path: "inner_dir" },
            "creating a directory",
        ),
        must(
            Call::PathOpen {
                at: Slot::Scratch,
                path: "file",
                oflags: OFLAGS_CREAT,
                base: 0,
                inheriting: 0,
            },
            "creating a file",
        ),
        refuse(
            Call::PathOpen {
                at: Slot::Scratch,
                path: "file",
                oflags: OFLAGS_DIRECTORY,
                base: 0,
                inheriting: 0,
            },
            ERRNO_NOTDIR,
            Message::Plain(
                "path_open with OFLAGS_DIRECTORY should fail if `path` is not a directory:\nExpected: Err(ERRNO_NOTDIR)\nFound: Ok(Fd)",
            ),
            Message::Named(
                "path_open with OFLAGS_DIRECTORY should fail if `path` is not a directory:\nExpected: ERRNO_NOTDIR\nFound: ERRNO_",
                "",
            ),
        ),
        succeed(
            Call::PathOpen {
                at: Slot::Scratch,
                path: "inner_dir",
                oflags: OFLAGS_DIRECTORY,
                base: 0,
                inheriting: 0,
            },
            Message::Rendered(
                "path_open with OFLAGS_DIRECTORY and directory path should return Ok:\nExpected: Ok(fd)\nFound: Err( ",
                " )",
            ),
        ),
        must(
            Call::PathRemoveDirectory { at: Slot::Scratch, path: "inner_dir" },
            "removing a directory",
        ),
        must(Call::PathUnlinkFile { at: Slot::Scratch, path: "file" }, "removing a file"),
    ]
}

/// `OFLAGS_DIRECTORY` fails on a file with `ERRNO_NOTDIR` and opens a
/// directory.
pub fn test_path_directory() -> (res: Script)
    ensures
        res@ == (ScriptView {
            ops: test_path_directory_ops(),
            spaced: true,
            guard: Guard::Plain,
        }),
        res@ == crate::outcomes::path_directory(),
{
    Script {
        ops: vec![
            must(
                Call::PathCreateDirectory { at: Slot::Scratch, path: "inner_dir" },
                "creating a directory",
            ),
            must(
                Call::PathOpen {
                    at: Slot::Scratch,
                    path: "file",
                    oflags: OFLAGS_CREAT,
                    base: 0,
                    inheriting: 0,
                },
                "creating a file",
            ),
            refuse(
                Call::PathOpen {
                    at: Slot::Scratch,
                    path: "file",
                    oflags: OFLAGS_DIRECTORY,
                    base: 0,
                    inheriting: 0,
                },
                ERRNO_NOTDIR,
                Message::Plain(
                    "path_open with OFLAGS_DIRECTORY should fail if `path` is not a directory:\nExpected: Err(ERRNO_NOTDIR)\nFound: Ok(Fd)",
                ),
                Message::Named(
                    "path_open with OFLAGS_DIRECTORY should fail if `path` is not a directory:\nExpected: ERRNO_NOTDIR\nFound: ERRNO_",
                    "",
                ),
            ),
            succeed(
                Call::PathOpen {
                    at: Slot::Scratch,
                    path: "inner_dir",
                    oflags: OFLAGS_DIRECTORY,
                    base: 0,
                    inheriting: 0,
                },
                Message::Rendered(
                    "path_open with OFLAGS_DIRECTORY and directory path should return Ok:\nExpected: Ok(fd)\nFound: Err( ",
                    " )",
                ),
            ),
            must(
                Call::PathRemoveDirectory { at: Slot::Scratch, path: "inner_dir" },
                "removing a directory",
            ),
            must(Call::PathUnlinkFile { at: Slot::Scratch, path: "file" }, "removing a file"),
        ],
        spaced: true,
        guard: Guard::Plain,
    }
}

/// The steps of `test_fdread_rights`.
pub open spec fn test_fdread_rights_ops() -> Seq<Op> {
    seq![
        must(
            Call::PathOpen {
                at: Slot::Scratch,
                path: "file",
                oflags: OFLAGS_CREAT,
                base: 0,
                inheriting: 0,
            },
            "creating a file",
        ),
        must(Call::FdFdstatGet { fd: Slot::Opened(0) }, "fd_fdstat_get failed"),
        Op::Check(
            Check::Require {
                field: Field::RightsBase,
                mask: RIGHTS_FD_READ,
                equal: true,
                value: 0,
                message: Message::Plain(">> fd should not have base RIGHTS_FD_READ"),
            },
        ),
        Op::Check(
            Check::Require {
                field: Field::RightsInheriting,
                mask: RIGHTS_FD_READ,
                equal: true,
                value: 0,
                message: Message::Plain(">> fd should not have inheriting RIGHTS_FD_READ"),
            },
        ),
        refuse(
            Call::FdRead { fd: Slot::Opened(0), len: 1 },
            ERRNO_BADF,
            Message::Plain(">> reading from a file without RIGHTS_FD_READ should fail"),
            Message::Named(
                ">> reading from a file without RIGHTS_FD_READ should return ERRNO_BADF\nExpected: ERRNO_BADF\nFound: ERRNO_",
                "",
            ),
        ),
        must(
            Call::PathOpen {
                at: Slot::Scratch,
                path: "file",
                oflags: OFLAGS_CREAT,
                base: RIGHTS_FD_READ,
                inheriting: 0,
            },
            "creating a file",
        ),
        succeed(
            Call::FdRead { fd: Slot::Opened(5), len: 1 },
            Message::Rendered(
                ">> reading from a file with RIGHTS_FD_READ should succeed\nFound Error:",
                "",
            ),
        ),
        must(Call::PathUnlinkFile { at: Slot::Scratch, path: "file" }, "removing a file"),
    ]
}

/// Only a descriptor with the read right can be read from.
pub fn test_fdread_rights() -> (res: Script)
    ensures
        res@ == (ScriptView {
            ops: test_fdread_rights_ops(),
            spaced: true,
            guard: Guard::Plain,
        }),
        res@ == crate::outcomes::fdread_rights(),
{
    Script {
        ops: vec![
            must(
                Call::PathOpen {
                    at: Slot::Scratch,
                    path: "file",
                    oflags: OFLAGS_CREAT,
                    base: 0,
                    inheriting: 0,
                },
                "creating a file",
            ),
            must(Call::FdFdstatGet { fd: Slot::Opened(0) }, "fd_fdstat_get failed"),
            Op::Check(
                Check::Require {
                    field: Field::RightsBase,
                    mask: RIGHTS_FD_READ,
                    equal: true,
                    value: 0,
                    message: Message::Plain(">> fd should not have base RIGHTS_FD_READ"),
                },
            ),
            Op::Check(
                Check::Require {
                    field: Field::RightsInheriting,
                    mask: RIGHTS_FD_READ,
                    equal: true,
                    value: 0,
                    message: Message::Plain(">> fd should not have inheriting RIGHTS_FD_READ"),
                },
            ),
            refuse(
                Call::FdRead { fd: Slot::Opened(0), len: 1 },
                ERRNO_BADF,
                Message::Plain(">> reading from a file without RIGHTS_FD_READ should fail"),
                Message::Named(
                    ">> reading from a file without RIGHTS_FD_READ should return ERRNO_BADF\nExpected: ERRNO_BADF\nFound: ERRNO_",
                    "",
                ),
            ),
            must(
                Call::PathOpen {
                    at: Slot::Scratch,
                    path: "file",
                    oflags: OFLAGS_CREAT,
                    base: RIGHTS_FD_READ,
                    inheriting: 0,
                },
                "creating a file",
            ),
            succeed(
                Call::FdRead { fd: Slot::Opened(5), len: 1 },
                Message::Rendered(
                    ">> reading from a file with RIGHTS_FD_READ should succeed\nFound Error:",
                    "",
                ),
            ),
            must(Call::PathUnlinkFile { at: Slot::Scratch, path: "file" }, "removing a file"),
        ],
        spaced: true,
        guard: Guard::Plain,
    }
}

} // verus!
