//! Scripts of the `fd_filestat_get` program.
//!
//! `fd_filestat_get` on a linked file and on the standard descriptors.

use vstd::prelude::*;
use crate::abi::{
    Call,
    OFLAGS_CREAT,
    OFLAGS_DIRECTORY,
    RIGHTS_FD_FILESTAT_GET,
    RIGHTS_PATH_LINK_TARGET,
    RIGHTS_PATH_REMOVE_DIRECTORY,
    RIGHTS_PATH_UNLINK_FILE,
};
use crate::script::{Check, Field, Guard, Message, Op, Script, ScriptView, Slot, assert_field, must};

verus! {

/// The steps of `test_nlink`.
pub open spec fn test_nlink_ops() -> Seq<Op> {
    seq![
        must(
            Call::PathOpen {
                at: Slot::Scratch,
                path: "file",
                oflags: OFLAGS_CREAT,
                base: RIGHTS_FD_FILESTAT_GET,
                inheriting: 0,
            },
            "creating a file",
        ),
        must(Call::FdFilestatGet { fd: Slot::Opened(0) }, "failed to get file stat"),
        assert_field(Field::Size, 0, false, "newly created file should have size 0"),
        assert_field(Field::Nlink, 1, false, "newly created file should have nlink = 1"),
        must(
            Call::PathCreateDirectory { at: Slot::Scratch, path: "inner_dir" },
            "create a new directory",
        ),
        must(
            Call::PathOpen {
                at: Slot::Scratch,
                path: "inner_dir",
                oflags: OFLAGS_DIRECTORY,
                base: RIGHTS_PATH_LINK_TARGET | RIGHTS_PATH_REMOVE_DIRECTORY | RIGHTS_PATH_UNLINK_FILE,
                inheriting: 0,
            },
            "open a new directory",
        ),
        must(
            Call::PathLink {
                from: Slot::Scratch,
                from_path: "file",
                to: Slot::Opened(5),
                to_path: "file",
            },
            "create a new file link",
        ),
        must(Call::FdFilestatGet { fd: Slot::Opened(0) }, "failed to get file stat"),
        Op::Check(
            Check::Require {
                field: Field::Nlink,
                mask: u64::MAX,
                equal: true,
                value: 2,
                message: Message::Counted(">> file should have 2 nlinlk\nFound nlinks:", ""),
            },
        ),
        must(
            Call::PathUnlinkFile { at: Slot::Opened(5), path: "file" },
            "removing the second file link",
        ),
        must(
            Call::PathRemoveDirectory { at: Slot::Scratch, path: "inner_dir" },
            "removing directory",
        ),
        must(Call::PathUnlinkFile { at: Slot::Scratch, path: "file" }, "removing file"),
    ]
}

/// A new hard link raises the file's link count to 2.
pub fn test_nlink() -> (res: Script)
    ensures
        res@ == (ScriptView {
            ops: test_nlink_ops(),
            spaced: true,
            guard: Guard::Plain,
        }),
        res@ == crate::outcomes::nlink(),
{
    Script {
        ops: vec![
            must(
                Call::PathOpen {
                    at: Slot::Scratch,
                    path: "file",
                    oflags: OFLAGS_CREAT,
                    base: RIGHTS_FD_FILESTAT_GET,
                    inheriting: 0,
                },
                "creating a file",
            ),
            must(Call::FdFilestatGet { fd: Slot::Opened(0) }, "failed to get file stat"),
            assert_field(Field::Size, 0, false, "newly created file should have size 0"),
            assert_field(Field::Nlink, 1, false, "newly created file should have nlink = 1"),
            must(
                Call::PathCreateDirectory { at: Slot::Scratch, path: "inner_dir" },
                "create a new directory",
            ),
            must(
                Call::PathOpen {
                    at: Slot::Scratch,
                    path: "inner_dir",
                    oflags: OFLAGS_DIRECTORY,
                    base: RIGHTS_PATH_LINK_TARGET | RIGHTS_PATH_REMOVE_DIRECTORY | RIGHTS_PATH_UNLINK_FILE,
                    inheriting: 0,
                },
                "open a new directory",
            ),
            must(
                Call::PathLink {
                    from: Slot::Scratch,
                    from_path: "file",
                    to: Slot::Opened(5),
                    to_path: "file",
                },
                "create a new file link",
            ),
            must(Call::FdFilestatGet { fd: Slot::Opened(0) }, "failed to get file stat"),
            Op::Check(
                Check::Require {
                    field: Field::Nlink,
                    mask: u64::MAX,
                    equal: true,
                    value: 2,
                    message: Message::Counted(">> file should have 2 nlinlk\nFound nlinks:", ""),
                },
            ),
            must(
                Call::PathUnlinkFile { at: Slot::Opened(5), path: "file" },
                "removing the second file link",
            ),
            must(
                Call::PathRemoveDirectory { at: Slot::Scratch, path: "inner_dir" },
                "removing directory",
            ),
            must(Call::PathUnlinkFile { at: Slot::Scratch, path: "file" }, "removing file"),
        ],
        spaced: true,
        guard: Guard::Plain,
    }
}

/// The steps of `test_stdin_stdout_stderr`.
pub open spec fn test_stdin_stdout_stderr_ops() -> Seq<Op> {
    seq![
        must(Call::FdFilestatGet { fd: Slot::Fixed(0) }, "failed filestat 0"),
        assert_field(Field::Size, 0, false, "stdio size should be 0"),
        assert_field(Field::Atim, 0, false, "stdio atim should be 0"),
        assert_field(Field::Mtim, 0, false, "stdio mtim should be 0"),
        assert_field(Field::Ctim, 0, false, "stdio ctim should be 0"),
        must(Call::FdFilestatGet { fd: Slot::Fixed(1) }, "failed filestat 1"),
        assert_field(Field::Size, 0, false, "stdio size should be 0"),
        assert_field(Field::Atim, 0, false, "stdio atim should be 0"),
        assert_field(Field::Mtim, 0, false, "stdio mtim should be 0"),
        assert_field(Field::Ctim, 0, false, "stdio ctim should be 0"),
        must(Call::FdFilestatGet { fd: Slot::Fixed(2) }, "failed filestat 2"),
        assert_field(Field::Size, 0, false, "stdio size should be 0"),
        assert_field(Field::Atim, 0, false, "stdio atim should be 0"),
        assert_field(Field::Mtim, 0, false, "stdio mtim should be 0"),
        assert_field(Field::Ctim, 0, false, "stdio ctim should be 0"),
    ]
}

/// The standard descriptors' stats must all be zero. The checks run under
/// `catch_unwind`: the test passes when every stat can be read and has size,
/// atim, mtim and ctim 0; otherwise it reports the failed step on standard
/// error and fails, and nothing ends the program.
pub fn test_stdin_stdout_stderr() -> (res: Script)
    ensures
        res@ == (ScriptView {
            ops: test_stdin_stdout_stderr_ops(),
            spaced: true,
            guard: Guard::Catch,
        }),
        res@ == crate::outcomes::stdio_stats(),
{
    Script {
        ops: vec![
            must(Call::FdFilestatGet { fd: Slot::Fixed(0) }, "failed filestat 0"),
            assert_field(Field::Size, 0, false, "stdio size should be 0"),
            assert_field(Field::Atim, 0, false, "stdio atim should be 0"),
            assert_field(Field::Mtim, 0, false, "stdio mtim should be 0"),
            assert_field(Field::Ctim, 0, false, "stdio ctim should be 0"),
            must(Call::FdFilestatGet { fd: Slot::Fixed(1) }, "failed filestat 1"),
            assert_field(Field::Size, 0, false, "stdio size should be 0"),
            assert_field(Field::Atim, 0, false, "stdio atim should be 0"),
            assert_field(Field::Mtim, 0, false, "stdio mtim should be 0"),
            assert_field(Field::Ctim, 0, false, "stdio ctim should be 0"),
            must(Call::FdFilestatGet { fd: Slot::Fixed(2) }, "failed filestat 2"),
            assert_field(Field::Size, 0, false, "stdio size should be 0"),
            assert_field(Field::Atim, 0, false, "stdio atim should be 0"),
            assert_field(Field::Mtim, 0, false, "stdio mtim should be 0"),
            assert_field(Field::Ctim, 0, false, "stdio ctim should be 0"),
        ],
        spaced: true,
        guard: Guard::Catch,
    }
}

} // verus!
