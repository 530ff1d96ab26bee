//! Scripts of the `fd_fdstat_set_rights` program.
//!
//! `fd_fdstat_set_rights` drops rights and refuses to add them.

use vstd::prelude::*;
use crate::abi::{
    Call,
    ERRNO_NOTCAPABLE,
    OFLAGS_CREAT,
    OFLAGS_DIRECTORY,
    RIGHTS_FD_FILESTAT_GET,
    RIGHTS_FD_READ,
    RIGHTS_FD_READDIR,
    RIGHTS_FD_SEEK,
    RIGHTS_FD_SYNC,
};
use crate::script::{
    Field,
    Guard,
    Message,
    Op,
    Script,
    ScriptView,
    Slot,
    assert_bits,
    must,
    refuse,
    succeed,
};

verus! {

/// The steps of `remove_file_rights`.
pub open spec fn remove_file_rights_ops() -> Seq<Op> {
    seq![
        must(
            Call::PathOpen {
                at: Slot::Scratch,
                path: "file",
                oflags: OFLAGS_CREAT,
                base: RIGHTS_FD_READ | RIGHTS_FD_SYNC,
                inheriting: 0,
            },
            "creating a file",
        ),
        must(Call::FdFdstatGet { fd: Slot::Opened(0) }, "getting fd stat"),
        assert_bits(Field::RightsBase, RIGHTS_FD_READ, true, "file should have fd_read right"),
        assert_bits(Field::RightsBase, RIGHTS_FD_SYNC, true, "file should have fd_sync right"),
        succeed(
            Call::FdFdstatSetRights { fd: Slot::Opened(0), base: RIGHTS_FD_SYNC, inheriting: 0 },
            Message::Rendered(">> failed to drop fd_read right.\nFound Error: ", ""),
        ),
        must(Call::FdFdstatGet { fd: Slot::Opened(0) }, "getting fd stat"),
        assert_bits(Field::RightsBase, RIGHTS_FD_READ, false, "file should NOT have fd_read right"),
        assert_bits(Field::RightsBase, RIGHTS_FD_SYNC, true, "file should have fd_sync right"),
        succeed(
            Call::FdFdstatSetRights { fd: Slot::Opened(0), base: 0, inheriting: 0 },
            Message::Rendered(">> failed to drop fd_sync right.\nFound Error: ", ""),
        ),
        must(Call::FdFdstatGet { fd: Slot::Opened(0) }, "getting fd stat"),
        assert_bits(Field::RightsBase, RIGHTS_FD_READ, false, "file should NOT have fd_read right"),
        assert_bits(Field::RightsBase, RIGHTS_FD_SYNC, false, "file should NOT have fd_sync right"),
        must(Call::PathUnlinkFile { at: Slot::Scratch, path: "file" }, "removing file"),
        must(Call::PathCreateDirectory { at: Slot::Scratch, path: "new_dir" }, "creating new_dir"),
        must(
            Call::PathOpen {
                at: Slot::Scratch,
                path: "new_dir",
                oflags: OFLAGS_DIRECTORY,
                base: RIGHTS_FD_READDIR,
                inheriting: RIGHTS_FD_READ,
            },
            "opening new_dir",
        ),
        must(Call::FdFdstatGet { fd: Slot::Opened(14) }, "getting dir stat"),
        assert_bits(
            Field::RightsBase,
            RIGHTS_FD_READDIR,
            true,
            "directory should have base fd_readdir rights",
        ),
        assert_bits(
            Field::RightsInheriting,
            RIGHTS_FD_READ,
            true,
            "directory should have inheriting fd_read rights",
        ),
        succeed(
            Call::FdFdstatSetRights { fd: Slot::Opened(14), base: 0, inheriting: 0 },
            Message::Rendered(">> failed to drop base and inheriting rights.\nFound Error: ", ""),
        ),
        must(Call::FdFdstatGet { fd: Slot::Opened(14) }, "getting dir stat"),
        assert_bits(
            Field::RightsBase,
            RIGHTS_FD_READDIR,
            false,
            "directory should NOT have base fd_readdir rights",
        ),
        assert_bits(
            Field::RightsInheriting,
            RIGHTS_FD_READ,
            false,
            "directory should NOT have inheriting fd_read rights",
        ),
        must(Call::PathRemoveDirectory { at: Slot::Scratch, path: "new_dir" }, "removing new_dir"),
    ]
}

/// Dropping rights from a file, then from a directory, one by one and all at
/// once.
pub fn remove_file_rights() -> (res: Script)
    ensures
        res@ == (ScriptView {
            ops: remove_file_rights_ops(),
            spaced: true,
            guard: Guard::Plain,
        }),
        res@ == crate::outcomes::dropping_rights(),
{
    Script {
        ops: vec![
            must(
                Call::PathOpen {
                    at: Slot::Scratch,
                    path: "file",
                    oflags: OFLAGS_CREAT,
                    base: RIGHTS_FD_READ | RIGHTS_FD_SYNC,
                    inheriting: 0,
                },
                "creating a file",
            ),
            must(Call::FdFdstatGet { fd: Slot::Opened(0) }, "getting fd stat"),
            assert_bits(Field::RightsBase, RIGHTS_FD_READ, true, "file should have fd_read right"),
            assert_bits(Field::RightsBase, RIGHTS_FD_SYNC, true, "file should have fd_sync right"),
            succeed(
                Call::FdFdstatSetRights {
                    fd: Slot::Opened(0),
                    base: RIGHTS_FD_SYNC,
                    inheriting: 0,
                },
                Message::Rendered(">> failed to drop fd_read right.\nFound Error: ", ""),
            ),
            must(Call::FdFdstatGet { fd: Slot::Opened(0) }, "getting fd stat"),
            assert_bits(
                Field::RightsBase,
                RIGHTS_FD_READ,
                false,
                "file should NOT have fd_read right",
            ),
            assert_bits(Field::RightsBase, RIGHTS_FD_SYNC, true, "file should have fd_sync right"),
            succeed(
                Call::FdFdstatSetRights { fd: Slot::Opened(0), base: 0, inheriting: 0 },
                Message::Rendered(">> failed to drop fd_sync right.\nFound Error: ", ""),
            ),
            must(Call::FdFdstatGet { fd: Slot::Opened(0) }, "getting fd stat"),
            assert_bits(
                Field::RightsBase,
                RIGHTS_FD_READ,
                false,
                "file should NOT have fd_read right",
            ),
            assert_bits(
                Field::RightsBase,
                RIGHTS_FD_SYNC,
                false,
                "file should NOT have fd_sync right",
            ),
            must(Call::PathUnlinkFile { at: Slot::Scratch, path: "file" }, "removing file"),
            must(
                Call::PathCreateDirectory { at: Slot::Scratch, path: "new_dir" },
                "creating new_dir",
            ),
            must(
                Call::PathOpen {
                    at: Slot::Scratch,
                    path: "new_dir",
                    oflags: OFLAGS_DIRECTORY,
                    base: RIGHTS_FD_READDIR,
                    inheriting: RIGHTS_FD_READ,
                },
                "opening new_dir",
            ),
            must(Call::FdFdstatGet { fd: Slot::Opened(14) }, "getting dir stat"),
            assert_bits(
                Field::RightsBase,
                RIGHTS_FD_READDIR,
                true,
                "directory should have base fd_readdir rights",
            ),
            assert_bits(
                Field::RightsInheriting,
                RIGHTS_FD_READ,
                true,
                "directory should have inheriting fd_read rights",
            ),
            succeed(
                Call::FdFdstatSetRights { fd: Slot::Opened(14), base: 0, inheriting: 0 },
                Message::Rendered(
                    ">> failed to drop base and inheriting rights.\nFound Error: ",
                    "",
                ),
            ),
            must(Call::FdFdstatGet { fd: Slot::Opened(14) }, "getting dir stat"),
            assert_bits(
                Field::RightsBase,
                RIGHTS_FD_READDIR,
                false,
                "directory should NOT have base fd_readdir rights",
            ),
            assert_bits(
                Field::RightsInheriting,
                RIGHTS_FD_READ,
                false,
                "directory should NOT have inheriting fd_read rights",
            ),
            must(
                Call::PathRemoveDirectory { at: Slot::Scratch, path: "new_dir" },
                "removing new_dir",
            ),
        ],
        spaced: true,
        guard: Guard::Plain,
    }
}

/// The steps of `add_file_rights`.
pub open spec fn add_file_rights_ops() -> Seq<Op> {
    seq![
        must(
            Call::PathOpen {
                at: Slot::Scratch,
                path: "file",
                oflags: OFLAGS_CREAT,
                base: RIGHTS_FD_SEEK,
                inheriting: 0,
            },
            "creating file",
        ),
        refuse(
            Call::FdFdstatSetRights { fd: Slot::Opened(0), base: RIGHTS_FD_READ, inheriting: 0 },
            ERRNO_NOTCAPABLE,
            Message::Plain(">> adding new rights to a file should return Err(). Found Ok()"),
            Message::Named(
                ">> adding new rights to a file should return ERRNO_NOTCAPABLE\nFound Error: ERRNO_",
                "",
            ),
        ),
        must(Call::PathUnlinkFile { at: Slot::Scratch, path: "file" }, "removing file"),
        must(Call::PathCreateDirectory { at: Slot::Scratch, path: "new_dir" }, "creating new_dir"),
        must(
            Call::PathOpen {
                at: Slot::Scratch,
                path: "new_dir",
                oflags: OFLAGS_DIRECTORY,
                base: RIGHTS_FD_READDIR,
                inheriting: RIGHTS_FD_READ,
            },
            "opening new_dir",
        ),
        refuse(
            Call::FdFdstatSetRights {
                fd: Slot::Opened(4),
                base: RIGHTS_FD_FILESTAT_GET,
                inheriting: RIGHTS_FD_READDIR,
            },
            ERRNO_NOTCAPABLE,
            Message::Plain(">> adding new rights to a directory should return Err(). Found Ok()"),
            Message::Named(
                ">> adding new rights to a directory should return ERRNO_NOTCAPABLE\nFound Error: ERRNO_",
                "",
            ),
        ),
        must(Call::PathRemoveDirectory { at: Slot::Scratch, path: "new_dir" }, "removing new_dir"),
    ]
}

/// Adding rights to a file or a directory fails with `ERRNO_NOTCAPABLE`.
pub fn add_file_rights() -> (res: Script)
    ensures
        res@ == (ScriptView {
            ops: add_file_rights_ops(),
            spaced: true,
            guard: Guard::Plain,
        }),
        res@ == crate::outcomes::adding_rights(),
{
    Script {
        ops: vec![
            must(
                Call::PathOpen {
                    at: Slot::Scratch,
                    path: "file",
                    oflags: OFLAGS_CREAT,
                    base: RIGHTS_FD_SEEK,
                    inheriting: 0,
                },
                "creating file",
            ),
            refuse(
                Call::FdFdstatSetRights {
                    fd: Slot::Opened(0),
                    base: RIGHTS_FD_READ,
                    inheriting: 0,
                },
                ERRNO_NOTCAPABLE,
                Message::Plain(">> adding new rights to a file should return Err(). Found Ok()"),
                Message::Named(
                    ">> adding new rights to a file should return ERRNO_NOTCAPABLE\nFound Error: ERRNO_",
                    "",
                ),
            ),
            must(Call::PathUnlinkFile { at: Slot::Scratch, path: "file" }, "removing file"),
            must(
                Call::PathCreateDirectory { at: Slot::Scratch, path: "new_dir" },
                "creating new_dir",
            ),
            must(
                Call::PathOpen {
                    at: Slot::Scratch,
                    path: "new_dir",
                    oflags: OFLAGS_DIRECTORY,
                    base: RIGHTS_FD_READDIR,
                    inheriting: RIGHTS_FD_READ,
                },
                "opening new_dir",
            ),
            refuse(
                Call::FdFdstatSetRights {
                    fd: Slot::Opened(4),
                    base: RIGHTS_FD_FILESTAT_GET,
                    inheriting: RIGHTS_FD_READDIR,
                },
                ERRNO_NOTCAPABLE,
                Message::Plain(
                    ">> adding new rights to a directory should return Err(). Found Ok()",
                ),
                Message::Named(
                    ">> adding new rights to a directory should return ERRNO_NOTCAPABLE\nFound Error: ERRNO_",
                    "",
                ),
            ),
            must(
                Call::PathRemoveDirectory { at: Slot::Scratch, path: "new_dir" },
                "removing new_dir",
            ),
        ],
        spaced: true,
        guard: Guard::Plain,
    }
}

} // verus!
