//! Scripts of the `fd_allocate` program.
//!
//! `fd_allocate` grows a file only where `offset + len` passes its end.

use vstd::prelude::*;
use crate::abi::{Call, OFLAGS_CREAT, RIGHTS_FD_ALLOCATE, RIGHTS_FD_FILESTAT_GET};
use crate::script::{Field, Guard, Op, Script, ScriptView, Slot, assert_field, must};

verus! {

/// The steps of `fd_allocate_test`.
pub open spec fn fd_allocate_test_ops() -> Seq<Op> {
    seq![
        must(
            Call::PathOpen {
                at: Slot::Scratch,
                path: "file",
                oflags: OFLAGS_CREAT,
                base: RIGHTS_FD_ALLOCATE | RIGHTS_FD_FILESTAT_GET,
                inheriting: 0,
            },
            "creating a file",
        ),
        must(Call::FdFilestatGet { fd: Slot::Opened(0) }, "reading file stats"),
        assert_field(Field::Size, 0, true, "file size should be 0"),
        must(Call::FdAllocate { fd: Slot::Opened(0), offset: 0, len: 100 }, "allocating size"),
        must(Call::FdFilestatGet { fd: Slot::Opened(0) }, "reading file stats"),
        assert_field(Field::Size, 100, true, "file size should be equal to 100"),
        must(
            Call::FdAllocate { fd: Slot::Opened(0), offset: 10, len: 10 },
            "allocating size less than file size",
        ),
        must(Call::FdFilestatGet { fd: Slot::Opened(0) }, "reading file stats"),
        assert_field(Field::Size, 100, true, "file size should be equal to 100"),
        must(
            Call::FdAllocate { fd: Slot::Opened(0), offset: 80, len: 50 },
            "allocating size less than file size",
        ),
        must(Call::FdFilestatGet { fd: Slot::Opened(0) }, "reading file stats"),
        assert_field(Field::Size, 130, true, "file size should be equal to 100"),
        must(Call::PathUnlinkFile { at: Slot::Scratch, path: "file" }, "removing file"),
    ]
}

/// Allocation to 100 bytes, within the file, and past its end.
pub fn fd_allocate_test() -> (res: Script)
    ensures
        res@ == (ScriptView {
            ops: fd_allocate_test_ops(),
            spaced: true,
            guard: Guard::Plain,
        }),
        res@ == crate::outcomes::allocate(),
{
    Script {
        ops: vec![
            must(
                Call::PathOpen {
                    at: Slot::Scratch,
                    path: "file",
                    oflags: OFLAGS_CREAT,
                    base: RIGHTS_FD_ALLOCATE | RIGHTS_FD_FILESTAT_GET,
                    inheriting: 0,
                },
                "creating a file",
            ),
            must(Call::FdFilestatGet { fd: Slot::Opened(0) }, "reading file stats"),
            assert_field(Field::Size, 0, true, "file size should be 0"),
            must(Call::FdAllocate { fd: Slot::Opened(0), offset: 0, len: 100 }, "allocating size"),
            must(Call::FdFilestatGet { fd: Slot::Opened(0) }, "reading file stats"),
            assert_field(Field::Size, 100, true, "file size should be equal to 100"),
            must(
                Call::FdAllocate { fd: Slot::Opened(0), offset: 10, len: 10 },
                "allocating size less than file size",
            ),
            must(Call::FdFilestatGet { fd: Slot::Opened(0) }, "reading file stats"),
            assert_field(Field::Size, 100, true, "file size should be equal to 100"),
            must(
                Call::FdAllocate { fd: Slot::Opened(0), offset: 80, len: 50 },
                "allocating size less than file size",
            ),
            must(Call::FdFilestatGet { fd: Slot::Opened(0) }, "reading file stats"),
            assert_field(Field::Size, 130, true, "file size should be equal to 100"),
            must(Call::PathUnlinkFile { at: Slot::Scratch, path: "file" }, "removing file"),
        ],
        spaced: true,
        guard: Guard::Plain,
    }
}

} // verus!
