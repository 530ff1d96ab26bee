//! Scripts of the `path_unlink_file` program.
//!
//! `path_unlink_file` removes one link of a file and refuses directories.

use vstd::prelude::*;
use crate::abi::{Call, ERRNO_ISDIR, ERRNO_NOENT, OFLAGS_CREAT, OFLAGS_DIRECTORY};
use crate::script::{Guard, Message, Op, Script, ScriptView, Slot, must, refuse, succeed};

verus! {

/// The steps of `simple_unlink`.
pub open spec fn simple_unlink_ops() -> Seq<Op> {
    seq![
        must(
            Call::PathOpen {
                at: Slot::Scratch,
                path: "file",
                oflags: OFLAGS_CREAT,
                base: 0,
                inheriting: 0,
            },
            "creating a file",
        ),
        succeed(
            Call::PathUnlinkFile { at: Slot::Scratch, path: "file" },
            Message::Plain(">> couldn't unlink file"),
        ),
        refuse(
            Call::PathOpen { at: Slot::Scratch, path: "file", oflags: 0, base: 0, inheriting: 0 },
            ERRNO_NOENT,
            Message::Plain(">> opening an unlinked file should return Err(). Found Ok()"),
            Message::Named(
                ">> opening an unlinked file should get ERRNO_NOENT\nFound Error: ERRNO_",
                "",
            ),
        ),
    ]
}

/// An unlinked file can no longer be opened: `ERRNO_NOENT`.
pub fn simple_unlink() -> (res: Script)
    ensures
        res@ == (ScriptView {
            ops: simple_unlink_ops(),
            spaced: true,
            guard: Guard::Plain,
        }),
        res@ == crate::outcomes::simple_unlinked(),
{
    Script {
        ops: vec![
            must(
                Call::PathOpen {
                    at: Slot::Scratch,
                    path: "file",
                    oflags: OFLAGS_CREAT,
                    base: 0,
                    inheriting: 0,
                },
                "creating a file",
            ),
            succeed(
                Call::PathUnlinkFile { at: Slot::Scratch, path: "file" },
                Message::Plain(">> couldn't unlink file"),
            ),
            refuse(
                Call::PathOpen {
                    at: Slot::Scratch,
                    path: "file",
                    oflags: 0,
                    base: 0,
                    inheriting: 0,
                },
                ERRNO_NOENT,
                Message::Plain(">> opening an unlinked file should return Err(). Found Ok()"),
                Message::Named(
                    ">> opening an unlinked file should get ERRNO_NOENT\nFound Error: ERRNO_",
                    "",
                ),
            ),
        ],
        spaced: true,
        guard: Guard::Plain,
    }
}

/// The steps of `unlink_multi_links`.
pub open spec fn unlink_multi_links_ops() -> Seq<Op> {
    seq![
        must(
            Call::PathOpen {
                at: Slot::Scratch,
                path: "file",
                oflags: OFLAGS_CREAT,
                base: 0,
                inheriting: 0,
            },
            "creating a file",
        ),
        must(
            Call::PathLink {
                from: Slot::Scratch,
                from_path: "file",
                to: Slot::Scratch,
                to_path: "file_link2",
            },
            "creating new link",
        ),
        must(
            Call::PathUnlinkFile { at: Slot::Scratch, path: "file" },
            "trying to remove first link of file",
        ),
        succeed(
            Call::PathOpen {
                at: Slot::Scratch,
                path: "file_link2",
                oflags: 0,
                base: 0,
                inheriting: 0,
            },
            Message::Rendered(">> failed to open a valid link for a file\nFound Error: ", ""),
        ),
        must(
            Call::PathUnlinkFile { at: Slot::Scratch, path: "file_link2" },
            "trying to remove second link of file",
        ),
        refuse(
            Call::PathOpen {
                at: Slot::Scratch,
                path: "file_link2",
                oflags: 0,
                base: 0,
                inheriting: 0,
            },
            ERRNO_NOENT,
            Message::Plain(">> opening a removed file should return an error. Found Ok()"),
            Message::Named(
                ">> opening a removed file should return ERRNO_NOENT\nFound Error: ERRNO_",
                "",
            ),
        ),
    ]
}

/// Removing one link leaves the other.
pub fn unlink_multi_links() -> (res: Script)
    ensures
        res@ == (ScriptView {
            ops: unlink_multi_links_ops(),
            spaced: true,
            guard: Guard::Plain,
        }),
        res@ == crate::outcomes::multi_links(),
{
    Script {
        ops: vec![
            must(
                Call::PathOpen {
                    at: Slot::Scratch,
                    path: "file",
                    oflags: OFLAGS_CREAT,
                    base: 0,
                    inheriting: 0,
                },
                "creating a file",
            ),
            must(
                Call::PathLink {
                    from: Slot::Scratch,
                    from_path: "file",
                    to: Slot::Scratch,
                    to_path: "file_link2",
                },
                "creating new link",
            ),
            must(
                Call::PathUnlinkFile { at: Slot::Scratch, path: "file" },
                "trying to remove first link of file",
            ),
            succeed(
                Call::PathOpen {
                    at: Slot::Scratch,
                    path: "file_link2",
                    oflags: 0,
                    base: 0,
                    inheriting: 0,
                },
                Message::Rendered(">> failed to open a valid link for a file\nFound Error: ", ""),
            ),
            must(
                Call::PathUnlinkFile { at: Slot::Scratch, path: "file_link2" },
                "trying to remove second link of file",
            ),
            refuse(
                Call::PathOpen {
                    at: Slot::Scratch,
                    path: "file_link2",
                    oflags: 0,
                    base: 0,
                    inheriting: 0,
                },
                ERRNO_NOENT,
                Message::Plain(">> opening a removed file should return an error. Found Ok()"),
                Message::Named(
                    ">> opening a removed file should return ERRNO_NOENT\nFound Error: ERRNO_",
                    "",
                ),
            ),
        ],
        spaced: true,
        guard: Guard::Plain,
    }
}

/// The steps of `unlink_dir`.
pub open spec fn unlink_dir_ops() -> Seq<Op> {
    seq![
        must(
            Call::PathCreateDirectory { at: Slot::Scratch, path: "new_dir" },
            "creating a directory",
        ),
        must(
            Call::PathOpen {
                at: Slot::Scratch,
                path: "new_dir",
                oflags: OFLAGS_DIRECTORY,
                base: 0,
                inheriting: 0,
            },
            "opening directory",
        ),
        refuse(
            Call::PathUnlinkFile { at: Slot::Scratch, path: "new_dir" },
            ERRNO_ISDIR,
            Message::Plain(
                ">> using path_unlink_file on a directory should return Err(). Found Ok()",
            ),
            Message::Named(
                ">> using path_unlink_file on a directory should return ERRNO_ISDIR\nFound Error: ERRNO_",
                "",
            ),
        ),
    ]
}

/// Unlinking a directory fails with `ERRNO_ISDIR`.
pub fn unlink_dir() -> (res: Script)
    ensures
        res@ == (ScriptView {
            ops: unlink_dir_ops(),
            spaced: true,
            guard: Guard::Plain,
        }),
        res@ == crate::outcomes::unlinked_dir(),
{
    Script {
        ops: vec![
            must(
                Call::PathCreateDirectory { at: Slot::Scratch, path: "new_dir" },
                "creating a directory",
            ),
            must(
                Call::PathOpen {
                    at: Slot::Scratch,
                    path: "new_dir",
                    oflags: OFLAGS_DIRECTORY,
                    base: 0,
                    inheriting: 0,
                },
                "opening directory",
            ),
            refuse(
                Call::PathUnlinkFile { at: Slot::Scratch, path: "new_dir" },
                ERRNO_ISDIR,
                Message::Plain(
                    ">> using path_unlink_file on a directory should return Err(). Found Ok()",
                ),
                Message::Named(
                    ">> using path_unlink_file on a directory should return ERRNO_ISDIR\nFound Error: ERRNO_",
                    "",
                ),
            ),
        ],
        spaced: true,
        guard: Guard::Plain,
    }
}

} // verus!
