//! Scripts of the `fd_prestat_get` program.
//!
//! `fd_prestat_get` refuses the standard descriptors and reports the preopened directory's name length.

use vstd::prelude::*;
use vstd::utf8::encode_utf8;
use crate::scan::{GoalView, Search, SearchView, Goal};
use crate::abi::{Call, ERRNO_BADF};
use crate::script::{Guard, Message, Op, Script, ScriptView, Slot, refuse};

verus! {

/// The steps of `test_zero_one_two_fd`.
pub open spec fn test_zero_one_two_fd_ops() -> Seq<Op> {
    seq![
        refuse(
            Call::FdPrestatGet { fd: Slot::Fixed(0) },
            ERRNO_BADF,
            Message::Plain("test failed: file decriptor 0 should not be accepted"),
            Message::Named("test failed: should get ERRNO_BADF. Got ERRNO_", " instead"),
        ),
        refuse(
            Call::FdPrestatGet { fd: Slot::Fixed(1) },
            ERRNO_BADF,
            Message::Plain("test failed: file decriptor 1 should not be accepted"),
            Message::Plain("Should get ERRNO_BADF. Got ERRNO_IO instead"),
        ),
        refuse(
            Call::FdPrestatGet { fd: Slot::Fixed(2) },
            ERRNO_BADF,
            Message::Plain("test failed: file decriptor 2 should not be accepted"),
            Message::Plain("Should get ERRNO_BADF. Got ERRNO_IO instead"),
        ),
    ]
}

/// Descriptors 0, 1 and 2 are not preopened: `ERRNO_BADF`.
pub fn test_zero_one_two_fd() -> (res: Script)
    ensures
        res@ == (ScriptView {
            ops: test_zero_one_two_fd_ops(),
            spaced: false,
            guard: Guard::Plain,
        }),
        res@ == crate::outcomes::stdio_prestats(),
{
    Script {
        ops: vec![
            refuse(
                Call::FdPrestatGet { fd: Slot::Fixed(0) },
                ERRNO_BADF,
                Message::Plain("test failed: file decriptor 0 should not be accepted"),
                Message::Named("test failed: should get ERRNO_BADF. Got ERRNO_", " instead"),
            ),
            refuse(
                Call::FdPrestatGet { fd: Slot::Fixed(1) },
                ERRNO_BADF,
                Message::Plain("test failed: file decriptor 1 should not be accepted"),
                Message::Plain("Should get ERRNO_BADF. Got ERRNO_IO instead"),
            ),
            refuse(
                Call::FdPrestatGet { fd: Slot::Fixed(2) },
                ERRNO_BADF,
                Message::Plain("test failed: file decriptor 2 should not be accepted"),
                Message::Plain("Should get ERRNO_BADF. Got ERRNO_IO instead"),
            ),
        ],
        spaced: false,
        guard: Guard::Plain,
    }
}

/// The test that the name length that `fd_prestat_get` reports for some
/// preopened descriptor is the byte length of `arg`, the name of the
/// directory given to the program.
pub fn test_correct_dir_name_len(arg: String) -> (res: Search)
    ensures
        res@ == (SearchView {
            goal: GoalView::NameLength(encode_utf8(arg@).len() as usize),
            missing: "couldn't find the directory/file",
        }),
        res@ == crate::laws::dir_name_len_search(arg@),
{
    Search { goal: Goal::NameLength(arg.as_str().len()), missing: "couldn't find the directory/file" }
}

} // verus!
