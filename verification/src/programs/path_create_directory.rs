//! Scripts of the `path_create_directory` program.
//!
//! `path_create_directory` creates a directory once.

use vstd::prelude::*;
use crate::abi::{Call, ERRNO_EXIST, OFLAGS_DIRECTORY};
use crate::script::{Guard, Message, Op, Script, ScriptView, Slot, must, refuse, succeed};

verus! {

/// The steps of `test_path_create_directory`.
pub open spec fn test_path_create_directory_ops() -> Seq<Op> {
    seq![
        must(
            Call::PathCreateDirectory { at: Slot::Scratch, path: "new_dir" },
            "create a directory",
        ),
        succeed(
            Call::PathOpen {
                at: Slot::Scratch,
                path: "new_dir",
                oflags: OFLAGS_DIRECTORY,
                base: 0,
                inheriting: 0,
            },
            Message::Rendered(">> couldn't open the new directory\nFound Error:", ""),
        ),
        must(
            Call::PathRemoveDirectory { at: Slot::Scratch, path: "new_dir" },
            "couldn't remove dir",
        ),
    ]
}

/// A new directory can be opened as a directory.
pub fn test_path_create_directory() -> (res: Script)
    ensures
        res@ == (ScriptView {
            ops: test_path_create_directory_ops(),
            spaced: true,
            guard: Guard::Plain,
        }),
        res@ == crate::outcomes::create_directory(),
{
    Script {
        ops: vec![
            must(
                Call::PathCreateDirectory { at: Slot::Scratch, path: "new_dir" },
                "create a directory",
            ),
            succeed(
                Call::PathOpen {
                    at: Slot::Scratch,
                    path: "new_dir",
                    oflags: OFLAGS_DIRECTORY,
                    base: 0,
                    inheriting: 0,
                },
                Message::Rendered(">> couldn't open the new directory\nFound Error:", ""),
            ),
            must(
                Call::PathRemoveDirectory { at: Slot::Scratch, path: "new_dir" },
                "couldn't remove dir",
            ),
        ],
        spaced: true,
        guard: Guard::Plain,
    }
}

/// The steps of `test_directory_exist`.
pub open spec fn test_directory_exist_ops() -> Seq<Op> {
    seq![
        must(
            Call::PathCreateDirectory { at: Slot::Scratch, path: "new_dir" },
            "create a directory",
        ),
        refuse(
            Call::PathCreateDirectory { at: Slot::Scratch, path: "new_dir" },
            ERRNO_EXIST,
            Message::Plain(
                ">> creating a directory that already exists should return an error\nExpected: Err()\nFound: Ok()",
            ),
            Message::Named(
                ">> creating a directory that already exists should return ERRNO_EXIST\nExpected: ERRNO_EXIST\nFound: ERRNO_",
                "",
            ),
        ),
    ]
}

/// Creating an existing directory fails with `ERRNO_EXIST`.
pub fn test_directory_exist() -> (res: Script)
    ensures
        res@ == (ScriptView {
            ops: test_directory_exist_ops(),
            spaced: true,
            guard: Guard::Plain,
        }),
        res@ == crate::outcomes::directory_exist(),
{
    Script {
        ops: vec![
            must(
                Call::PathCreateDirectory { at: Slot::Scratch, path: "new_dir" },
                "create a directory",
            ),
            refuse(
                Call::PathCreateDirectory { at: Slot::Scratch, path: "new_dir" },
                ERRNO_EXIST,
                Message::Plain(
                    ">> creating a directory that already exists should return an error\nExpected: Err()\nFound: Ok()",
                ),
                Message::Named(
                    ">> creating a directory that already exists should return ERRNO_EXIST\nExpected: ERRNO_EXIST\nFound: ERRNO_",
                    "",
                ),
            ),
        ],
        spaced: true,
        guard: Guard::Plain,
    }
}

} // verus!
