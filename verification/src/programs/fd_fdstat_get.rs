//! Scripts of the `fd_fdstat_get` program.
//!
//! `fd_fdstat_get` on a new file and on a new directory.

use vstd::prelude::*;
use crate::abi::{Call, OFLAGS_CREAT, OFLAGS_DIRECTORY};
use crate::script::{Check, Field, Guard, Message, Op, Script, ScriptView, Slot, assert_field, must};

verus! {

/// The steps of `test_regular_file_stat`.
pub open spec fn test_regular_file_stat_ops() -> Seq<Op> {
    seq![
        must(
            Call::PathOpen {
                at: Slot::Scratch,
                path: "file",
                oflags: OFLAGS_CREAT,
                base: 0,
                inheriting: 0,
            },
            "create a file",
        ),
        must(Call::FdFdstatGet { fd: Slot::Opened(0) }, "trying to get file fd_stat"),
        Op::Check(
            Check::FileType {
                name: "REGULAR_FILE",
                message: Message::Named("file should have type REGULAR_FILE\nFound Type: ", ""),
            },
        ),
        assert_field(Field::Flags, 0, false, "file should have fs_flags 0"),
        assert_field(Field::RightsBase, 0, false, "file should have fs_rights_base 0"),
        assert_field(Field::RightsInheriting, 0, false, "file should have fs_rights_inheriting 0"),
        must(Call::PathUnlinkFile { at: Slot::Scratch, path: "file" }, "unlinking file"),
    ]
}

/// A new file is a regular file with no flags and no rights.
pub fn test_regular_file_stat() -> (res: Script)
    ensures
        res@ == (ScriptView {
            ops: test_regular_file_stat_ops(),
            spaced: true,
            guard: Guard::Plain,
        }),
        res@ == crate::outcomes::regular_file_stat(),
{
    Script {
        ops: vec![
            must(
                Call::PathOpen {
                    at: Slot::Scratch,
                    path: "file",
                    oflags: OFLAGS_CREAT,
                    base: 0,
                    inheriting: 0,
                },
                "create a file",
            ),
            must(Call::FdFdstatGet { fd: Slot::Opened(0) }, "trying to get file fd_stat"),
            Op::Check(
                Check::FileType {
                    name: "REGULAR_FILE",
                    message: Message::Named("file should have type REGULAR_FILE\nFound Type: ", ""),
                },
            ),
            assert_field(Field::Flags, 0, false, "file should have fs_flags 0"),
            assert_field(Field::RightsBase, 0, false, "file should have fs_rights_base 0"),
            assert_field(
                Field::RightsInheriting,
                0,
                false,
                "file should have fs_rights_inheriting 0",
            ),
            must(Call::PathUnlinkFile { at: Slot::Scratch, path: "file" }, "unlinking file"),
        ],
        spaced: true,
        guard: Guard::Plain,
    }
}

/// The steps of `test_directory_stat`.
pub open spec fn test_directory_stat_ops() -> Seq<Op> {
    seq![
        must(Call::PathCreateDirectory { at: Slot::Scratch, path: "new_dir" }, "creating new dir"),
        must(
            Call::PathOpen {
                at: Slot::Scratch,
                path: "new_dir",
                oflags: OFLAGS_DIRECTORY,
                base: 0,
                inheriting: 0,
            },
            "opening dir",
        ),
        must(Call::FdFdstatGet { fd: Slot::Opened(1) }, "trying to get new_dir stat"),
        Op::Check(
            Check::FileType {
                name: "DIRECTORY",
                message: Message::Named("directory should have type DIRECTORY\nFound Type: ", ""),
            },
        ),
        assert_field(Field::Flags, 0, false, "file should have fs_flags 0"),
        assert_field(Field::RightsBase, 0, false, "file should have fs_rights_base 0"),
        assert_field(Field::RightsInheriting, 0, false, "file should have fs_rights_inheriting 0"),
        must(
            Call::PathRemoveDirectory { at: Slot::Scratch, path: "new_dir" },
            "trying to remove new_dir",
        ),
    ]
}

/// A new directory is a directory with no flags and no rights.
pub fn test_directory_stat() -> (res: Script)
    ensures
        res@ == (ScriptView {
            ops: test_directory_stat_ops(),
            spaced: true,
            guard: Guard::Plain,
        }),
        res@ == crate::outcomes::directory_stat(),
{
    Script {
        ops: vec![
            must(
                Call::PathCreateDirectory { at: Slot::Scratch, path: "new_dir" },
                "creating new dir",
            ),
            must(
                Call::PathOpen {
                    at: Slot::Scratch,
                    path: "new_dir",
                    oflags: OFLAGS_DIRECTORY,
                    base: 0,
                    inheriting: 0,
                },
                "opening dir",
            ),
            must(Call::FdFdstatGet { fd: Slot::Opened(1) }, "trying to get new_dir stat"),
            Op::Check(
                Check::FileType {
                    name: "DIRECTORY",
                    message: Message::Named("directory should have type DIRECTORY\nFound Type: ", ""),
                },
            ),
            assert_field(Field::Flags, 0, false, "file should have fs_flags 0"),
            assert_field(Field::RightsBase, 0, false, "file should have fs_rights_base 0"),
            assert_field(
                Field::RightsInheriting,
                0,
                false,
                "file should have fs_rights_inheriting 0",
            ),
            must(
                Call::PathRemoveDirectory { at: Slot::Scratch, path: "new_dir" },
                "trying to remove new_dir",
            ),
        ],
        spaced: true,
        guard: Guard::Plain,
    }
}

} // verus!
