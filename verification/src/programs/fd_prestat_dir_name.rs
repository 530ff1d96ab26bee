//! Scripts of the `fd_prestat_dir_name` program.
//!
//! `fd_prestat_dir_name` names the preopened directory and refuses the standard descriptors.

use vstd::prelude::*;
use vstd::utf8::encode_utf8;
use crate::scan::{str_bytes, GoalView, Search, SearchView, Goal};
use crate::abi::{Call, ERRNO_NOTDIR};
use crate::script::{Guard, Message, Op, Script, ScriptView, Slot, refuse};

verus! {

/// The steps of `test_zero_one_two`.
pub open spec fn test_zero_one_two_ops() -> Seq<Op> {
    seq![
        refuse(
            Call::FdPrestatDirName { fd: Slot::Fixed(0), len: 5 },
            ERRNO_NOTDIR,
            Message::Plain("file descriptor 0 should return NOTDIR Error"),
            Message::Plain("file descriptor 0 should return NOTDIR Error"),
        ),
        refuse(
            Call::FdPrestatDirName { fd: Slot::Fixed(1), len: 6 },
            ERRNO_NOTDIR,
            Message::Plain("file descriptor 1 should return NOTDIR Error"),
            Message::Plain("file descriptor 1 should return NOTDIR Error"),
        ),
        refuse(
            Call::FdPrestatDirName { fd: Slot::Fixed(2), len: 6 },
            ERRNO_NOTDIR,
            Message::Plain("file descriptor 2 should return NOTDIR Error"),
            Message::Plain("file descriptor 2 should return NOTDIR Error"),
        ),
    ]
}

/// Descriptors 0, 1 and 2 have no preopened name: `ERRNO_NOTDIR`.
pub fn test_zero_one_two() -> (res: Script)
    ensures
        res@ == (ScriptView {
            ops: test_zero_one_two_ops(),
            spaced: false,
            guard: Guard::Plain,
        }),
        res@ == crate::outcomes::stdio_dir_names(),
{
    Script {
        ops: vec![
            refuse(
                Call::FdPrestatDirName { fd: Slot::Fixed(0), len: 5 },
                ERRNO_NOTDIR,
                Message::Plain("file descriptor 0 should return NOTDIR Error"),
                Message::Plain("file descriptor 0 should return NOTDIR Error"),
            ),
            refuse(
                Call::FdPrestatDirName { fd: Slot::Fixed(1), len: 6 },
                ERRNO_NOTDIR,
                Message::Plain("file descriptor 1 should return NOTDIR Error"),
                Message::Plain("file descriptor 1 should return NOTDIR Error"),
            ),
            refuse(
                Call::FdPrestatDirName { fd: Slot::Fixed(2), len: 6 },
                ERRNO_NOTDIR,
                Message::Plain("file descriptor 2 should return NOTDIR Error"),
                Message::Plain("file descriptor 2 should return NOTDIR Error"),
            ),
        ],
        spaced: false,
        guard: Guard::Plain,
    }
}

/// The test that `fd_prestat_dir_name` gives, for some preopened
/// descriptor, exactly the bytes of `path`, the name of the directory given
/// to the program. (The program also compares `path` with the name decoded
/// by `String::from_utf8_lossy`; since `path` is valid UTF-8, that decoding
/// of the same bytes gives `path` back, so the comparison of bytes decides.)
pub fn test_valid_path(path: String) -> (res: Search)
    ensures
        res@ == (SearchView {
            goal: GoalView::Name(encode_utf8(path@)),
            missing: "failed to find dir",
        }),
        res@ == crate::laws::valid_path_search(path@),
{
    Search { goal: Goal::Name(str_bytes(path.as_str())), missing: "failed to find dir" }
}

} // verus!
