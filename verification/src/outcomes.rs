//! What the tests of the programs conclude from the host's answers: for each
//! test, over every answer a host may give, which answers let it pass, which
//! make it fail, and which end the program.

use vstd::prelude::*;

use crate::abi::{
    Call, FdStatView, FileStat, ReplyView, ERRNO_BADF, ERRNO_EXIST, ERRNO_ISDIR, ERRNO_NOENT,
    ERRNO_NOTCAPABLE, ERRNO_NOTDIR, OFLAGS_CREAT, OFLAGS_DIRECTORY, OFLAGS_EXCL, RIGHTS_FD_ALLOCATE,
    RIGHTS_FD_FILESTAT_GET, RIGHTS_FD_READ, RIGHTS_PATH_LINK_TARGET, RIGHTS_PATH_REMOVE_DIRECTORY,
    RIGHTS_PATH_UNLINK_FILE, RIGHTS_FD_READDIR, RIGHTS_FD_SEEK, RIGHTS_FD_SYNC,
};
use crate::laws::{issued, replay};
use crate::programs::fd_allocate::fd_allocate_test_ops;
use crate::programs::fd_fdstat_get::{test_directory_stat_ops, test_regular_file_stat_ops};
use crate::programs::fd_fdstat_set_rights::{add_file_rights_ops, remove_file_rights_ops};
use crate::programs::fd_filestat_get::{test_nlink_ops, test_stdin_stdout_stderr_ops};
use crate::programs::path_create_directory::{test_directory_exist_ops, test_path_create_directory_ops};
use crate::programs::path_open::{
    test_file_doesnt_exist_ops, test_path_create_ops, test_path_directory_ops, test_path_exists_ops,
    test_path_fd_notdir_ops, test_fdread_rights_ops,
};
use crate::programs::fd_prestat_dir_name::test_zero_one_two_ops;
use crate::programs::fd_prestat_get::test_zero_one_two_fd_ops;
use crate::programs::path_unlink_file::{simple_unlink_ops, unlink_dir_ops, unlink_multi_links_ops};
use crate::script::{after, result_code, start, waiting, Guard, RunView, ScriptView, VerdictView};

verus! {

/// Whether the answer is the error with the code.
pub open spec fn refused_with(r: ReplyView, code: u16) -> bool {
    r matches ReplyView::Error(e) && e.code == code
}

/// Whether the answer is a success.
pub open spec fn ok(r: ReplyView) -> bool {
    !(r is Error)
}

/// Whether the run of the script over the answers has ended with the result
/// (0 for a pass, 1 for a failure, none when the program ended).
pub open spec fn ends_with(s: ScriptView, replies: Seq<ReplyView>, code: Option<u8>) -> bool {
    replay(s, start(s), replies).verdict matches Some(v) && result_code(v) == code
}

/// The script of `test_file_doesnt_exist`.
pub open spec fn file_doesnt_exist() -> ScriptView {
    ScriptView { ops: test_file_doesnt_exist_ops(), spaced: true, guard: Guard::Plain }
}

/// Opening a file that does not exist: the test opens "file" in the scratch
/// directory without flags, and passes exactly when the host refuses with
/// `ERRNO_NOENT`; any other answer, success or another error, fails it.
pub proof fn lemma_missing_file_is_noent(scratch: u32, replies: Seq<ReplyView>)
    requires
        replies.len() == 1,
    ensures
        waiting(file_doesnt_exist(), scratch, start(file_doesnt_exist())) == Some(
            Call::PathOpen { at: scratch, path: "file", oflags: 0u16, base: 0u64, inheriting: 0u64 },
        ),
        ends_with(
            file_doesnt_exist(),
            replies,
            if refused_with(replies[0], ERRNO_NOENT) { Some(0u8) } else { Some(1u8) },
        ),
{
    reveal_with_fuel(replay, 3);
    reveal_with_fuel(crate::script::settle, 3);
}

/// The script of `test_directory_exist`.
pub open spec fn directory_exist() -> ScriptView {
    ScriptView { ops: test_directory_exist_ops(), spaced: true, guard: Guard::Plain }
}

/// Creating a directory twice: the test creates "new_dir" in the scratch
/// directory, which must succeed (an error ends the program), then creates
/// it again at the same place, and passes exactly when the host refuses that
/// with `ERRNO_EXIST`; success or another error fails it.
pub proof fn lemma_second_mkdir_is_exist(scratch: u32, replies: Seq<ReplyView>)
    requires
        replies.len() == 2,
    ensures
        waiting(directory_exist(), scratch, start(directory_exist())) == Some(
            Call::PathCreateDirectory { at: scratch, path: "new_dir" },
        ),
        !(replies[0] is Error) ==> waiting(
            directory_exist(),
            scratch,
            replay(directory_exist(), start(directory_exist()), replies.take(1)),
        ) == Some(Call::PathCreateDirectory { at: scratch, path: "new_dir" }),
        ends_with(
            directory_exist(),
            replies,
            if replies[0] is Error {
                None
            } else if refused_with(replies[1], ERRNO_EXIST) {
                Some(0u8)
            } else {
                Some(1u8)
            },
        ),
{
    reveal_with_fuel(replay, 3);
    reveal_with_fuel(crate::script::settle, 3);
}

proof fn lemma_full_mask(x: u64)
    ensures
        x & u64::MAX == x,
{
    assert(x & u64::MAX == x) by (bit_vector);
}

/// The script of `test_directory_stat`.
pub open spec fn directory_stat() -> ScriptView {
    ScriptView { ops: test_directory_stat_ops(), spaced: true, guard: Guard::Plain }
}

/// The `fdstat` of a new directory: the test creates "new_dir", opens it
/// as a directory and asks for the `fdstat` of the descriptor it got back.
/// It fails (result 1) unless the file type is named "DIRECTORY"; with that
/// type, it ends the program unless the flags and both rights are 0, and
/// then passes once the directory is removed.
pub proof fn lemma_directory_stat_is_directory(
    scratch: u32,
    made: ReplyView,
    fd: u32,
    st: FdStatView,
    removed: ReplyView,
)
    requires
        !(made is Error),
        !(removed is Error),
    ensures
        waiting(
            directory_stat(),
            scratch,
            replay(directory_stat(), start(directory_stat()), seq![made, ReplyView::Opened(fd)]),
        ) == Some(Call::FdFdstatGet { fd }),
        st.filetype_name == "DIRECTORY"@ && st.flags == 0 && st.rights_base == 0 && st.rights_inheriting == 0
            ==> issued(
            directory_stat(),
            scratch,
            start(directory_stat()),
            seq![made, ReplyView::Opened(fd), ReplyView::FdStat(st), removed],
        ) == seq![
            Call::PathCreateDirectory { at: scratch, path: "new_dir" },
            Call::PathOpen {
                at: scratch,
                path: "new_dir",
                oflags: OFLAGS_DIRECTORY,
                base: 0u64,
                inheriting: 0u64,
            },
            Call::FdFdstatGet { fd },
            Call::PathRemoveDirectory { at: scratch, path: "new_dir" },
        ],
        ends_with(
            directory_stat(),
            seq![made, ReplyView::Opened(fd), ReplyView::FdStat(st), removed],
            if st.filetype_name != "DIRECTORY"@ {
                Some(1u8)
            } else if st.flags == 0 && st.rights_base == 0 && st.rights_inheriting == 0 {
                Some(0u8)
            } else {
                None
            },
        ),
{
    let s = directory_stat();
    let four = seq![made, ReplyView::Opened(fd), ReplyView::FdStat(st), removed];
    let s0 = start(s);
    assert(s0.pc == 0 && s0.verdict is None);
    let s1 = after(s, s0, made);
    assert(s1.pc == 1 && s1.verdict is None);
    let s2 = after(s, s1, ReplyView::Opened(fd));
    assert(s2.pc == 2 && s2.verdict is None && s2.opened[1] == Some(fd));
    let s3 = after(s, s2, ReplyView::FdStat(st));
    lemma_full_mask(st.flags as u64);
    lemma_full_mask(st.rights_base);
    lemma_full_mask(st.rights_inheriting);
    reveal_with_fuel(crate::script::settle, 6);
    let ok = st.flags == 0 && st.rights_base == 0 && st.rights_inheriting == 0;
    if st.filetype_name == "DIRECTORY"@ && ok {
        assert(s3.pc == 7 && s3.verdict is None);
        let s4 = after(s, s3, removed);
        assert(s4.verdict == Some(VerdictView::Passed));
    } else {
        assert(s3.verdict is Some);
    }
    assert(four.drop_first()[0] == ReplyView::Opened(fd));
    assert(four.drop_first().drop_first()[0] == ReplyView::FdStat(st));
    assert(four.drop_first().drop_first().drop_first()[0] == removed);
    assert(four.drop_first().drop_first().drop_first().drop_first() =~= Seq::<ReplyView>::empty());
    let two = seq![made, ReplyView::Opened(fd)];
    assert(two.drop_first()[0] == ReplyView::Opened(fd));
    assert(two.drop_first().drop_first() =~= Seq::<ReplyView>::empty());
    reveal_with_fuel(replay, 5);
    reveal_with_fuel(issued, 5);
}

/// The script of `unlink_multi_links`.
pub open spec fn multi_links() -> ScriptView {
    ScriptView { ops: unlink_multi_links_ops(), spaced: true, guard: Guard::Plain }
}

/// Removing both links of a file: the test creates "file", links it as
/// "file_link2", unlinks "file", opens "file_link2" (an error there fails
/// it), unlinks "file_link2", and opens "file_link2" once more. With the
/// file created, linked and unlinked, it passes exactly when the host
/// refuses that last open with `ERRNO_NOENT`; success or another error
/// fails it.
pub proof fn lemma_removed_file_is_noent(scratch: u32, replies: Seq<ReplyView>)
    requires
        replies.len() == 6,
        forall|i: int| 0 <= i < 5 && i != 3 ==> !(#[trigger] replies[i] is Error),
    ensures
        replies[3] is Error ==> ends_with(multi_links(), replies, Some(1u8)),
        !(replies[3] is Error) ==> waiting(
            multi_links(),
            scratch,
            replay(multi_links(), start(multi_links()), replies.take(5)),
        ) == Some(
            Call::PathOpen { at: scratch, path: "file_link2", oflags: 0u16, base: 0u64, inheriting: 0u64 },
        ),
        !(replies[3] is Error) ==> issued(multi_links(), scratch, start(multi_links()), replies) == seq![
            Call::PathOpen { at: scratch, path: "file", oflags: OFLAGS_CREAT, base: 0u64, inheriting: 0u64 },
            Call::PathLink { from: scratch, from_path: "file", to: scratch, to_path: "file_link2" },
            Call::PathUnlinkFile { at: scratch, path: "file" },
            Call::PathOpen { at: scratch, path: "file_link2", oflags: 0u16, base: 0u64, inheriting: 0u64 },
            Call::PathUnlinkFile { at: scratch, path: "file_link2" },
            Call::PathOpen { at: scratch, path: "file_link2", oflags: 0u16, base: 0u64, inheriting: 0u64 },
        ],
        !(replies[3] is Error) ==> ends_with(
            multi_links(),
            replies,
            if refused_with(replies[5], ERRNO_NOENT) { Some(0u8) } else { Some(1u8) },
        ),
{
    let s = multi_links();
    assert(!(replies[0] is Error) && !(replies[1] is Error) && !(replies[2] is Error) && !(replies[4] is Error));
    let s0 = start(s);
    assert(s0.pc == 0 && s0.verdict is None);
    let s1 = after(s, s0, replies[0]);
    assert(s1.pc == 1 && s1.verdict is None);
    let s2 = after(s, s1, replies[1]);
    assert(s2.pc == 2 && s2.verdict is None);
    let s3 = after(s, s2, replies[2]);
    assert(s3.pc == 3 && s3.verdict is None);
    let s4 = after(s, s3, replies[3]);
    if replies[3] is Error {
        assert(s4.verdict matches Some(v) && result_code(v) == Some(1u8));
    } else {
        assert(s4.pc == 4 && s4.verdict is None);
        let s5 = after(s, s4, replies[4]);
        assert(s5.pc == 5 && s5.verdict is None);
        let s6 = after(s, s5, replies[5]);
        assert(s6.verdict is Some);
    }
    let t5 = replies.take(5);
    assert(t5.drop_first().drop_first().drop_first().drop_first().drop_first() =~= Seq::<ReplyView>::empty());
    assert(replies.drop_first().drop_first().drop_first().drop_first().drop_first().drop_first()
        =~= Seq::<ReplyView>::empty());
    reveal_with_fuel(replay, 7);
    reveal_with_fuel(issued, 7);
}

/// The script of `test_nlink`.
pub open spec fn nlink() -> ScriptView {
    ScriptView { ops: test_nlink_ops(), spaced: true, guard: Guard::Plain }
}

/// The link count of a file: the test creates "file" and asks for its
/// `filestat`, which must show size 0 and one link (otherwise the program
/// ends); it then creates and opens "inner_dir", links the file into it,
/// and asks for the file's `filestat` again, on the descriptor it got when
/// creating it. It fails (result 1) unless that second `filestat` shows two
/// links, and otherwise passes once the link, the directory and the file
/// are removed.
pub proof fn lemma_link_makes_two_links(scratch: u32, replies: Seq<ReplyView>)
    requires
        replies.len() == 9,
        replies[0] is Opened,
        replies[1] is FileStat,
        replies[3] is Opened,
        replies[5] is FileStat,
        forall|i: int| 0 <= i < 9 ==> !(#[trigger] replies[i] is Error),
    ensures
        ({
            let first = replies[1]->FileStat_0;
            let second = replies[5]->FileStat_0;
            &&& first.size == 0 && first.nlink == 1 ==> waiting(
                nlink(),
                scratch,
                replay(nlink(), start(nlink()), replies.take(5)),
            ) == Some(Call::FdFilestatGet { fd: replies[0]->Opened_0 })
            &&& first.size == 0 && first.nlink == 1 && second.nlink == 2 ==> issued(
                nlink(),
                scratch,
                start(nlink()),
                replies,
            ) == seq![
                Call::PathOpen {
                    at: scratch,
                    path: "file",
                    oflags: OFLAGS_CREAT,
                    base: RIGHTS_FD_FILESTAT_GET,
                    inheriting: 0u64,
                },
                Call::FdFilestatGet { fd: replies[0]->Opened_0 },
                Call::PathCreateDirectory { at: scratch, path: "inner_dir" },
                Call::PathOpen {
                    at: scratch,
                    path: "inner_dir",
                    oflags: OFLAGS_DIRECTORY,
                    base: RIGHTS_PATH_LINK_TARGET | RIGHTS_PATH_REMOVE_DIRECTORY | RIGHTS_PATH_UNLINK_FILE,
                    inheriting: 0u64,
                },
                Call::PathLink {
                    from: scratch,
                    from_path: "file",
                    to: replies[3]->Opened_0,
                    to_path: "file",
                },
                Call::FdFilestatGet { fd: replies[0]->Opened_0 },
                Call::PathUnlinkFile { at: replies[3]->Opened_0, path: "file" },
                Call::PathRemoveDirectory { at: scratch, path: "inner_dir" },
                Call::PathUnlinkFile { at: scratch, path: "file" },
            ]
            &&& ends_with(
                nlink(),
                replies,
                if !(first.size == 0 && first.nlink == 1) {
                    None
                } else if second.nlink == 2 {
                    Some(0u8)
                } else {
                    Some(1u8)
                },
            )
        }),
{
    let s = nlink();
    let first = replies[1]->FileStat_0;
    let second = replies[5]->FileStat_0;
    assert(!(replies[2] is Error) && !(replies[4] is Error) && !(replies[6] is Error) && !(replies[7] is Error) && !(replies[8] is Error));
    lemma_full_mask(first.size);
    lemma_full_mask(first.nlink);
    lemma_full_mask(second.nlink);
    reveal_with_fuel(crate::script::settle, 4);
    let s0 = start(s);
    assert(s0.pc == 0 && s0.verdict is None);
    let s1 = after(s, s0, replies[0]);
    assert(s1.pc == 1 && s1.verdict is None && s1.opened[0] == Some(replies[0]->Opened_0));
    let s2 = after(s, s1, replies[1]);
    if first.size == 0 && first.nlink == 1 {
        assert(s2.pc == 4 && s2.verdict is None);
        let s3 = after(s, s2, replies[2]);
        assert(s3.pc == 5 && s3.verdict is None && s3.opened[0] == Some(replies[0]->Opened_0));
        let s4 = after(s, s3, replies[3]);
        assert(s4.pc == 6 && s4.verdict is None && s4.opened[5] == Some(replies[3]->Opened_0));
        let s5 = after(s, s4, replies[4]);
        assert(s5.pc == 7 && s5.verdict is None && s5.opened[0] == Some(replies[0]->Opened_0));
        let s6 = after(s, s5, replies[5]);
        if second.nlink == 2 {
            assert(s6.pc == 9 && s6.verdict is None);
            let s7 = after(s, s6, replies[6]);
            assert(s7.pc == 10 && s7.verdict is None);
            let s8 = after(s, s7, replies[7]);
            assert(s8.pc == 11 && s8.verdict is None);
            let s9 = after(s, s8, replies[8]);
            assert(s9.verdict == Some(VerdictView::Passed));
        } else {
            assert(s6.verdict matches Some(v) && result_code(v) == Some(1u8));
        }
    } else {
        assert(s2.verdict matches Some(v) && result_code(v) == None::<u8>);
    }
    let t5 = replies.take(5);
    assert(t5.drop_first().drop_first().drop_first().drop_first().drop_first() =~= Seq::<ReplyView>::empty());
    assert(replies.drop_first().drop_first().drop_first().drop_first().drop_first().drop_first()
        .drop_first().drop_first().drop_first() =~= Seq::<ReplyView>::empty());
    reveal_with_fuel(replay, 10);
    reveal_with_fuel(issued, 10);
}

/// The script of `test_path_create`.
pub open spec fn path_create() -> ScriptView {
    ScriptView { ops: test_path_create_ops(), spaced: true, guard: Guard::Plain }
}

/// Creating a file: the test opens "file" with `OFLAGS_CREAT` and removes
/// it; it fails when the open is refused, ends the program when the removal
/// is, and passes otherwise.
pub proof fn lemma_create_opens(scratch: u32, replies: Seq<ReplyView>)
    requires
        replies.len() == 2,
    ensures
        ok(replies[0]) && ok(replies[1]) ==> issued(path_create(), scratch, start(path_create()), replies)
            == seq![
            Call::PathOpen { at: scratch, path: "file", oflags: OFLAGS_CREAT, base: 0u64, inheriting: 0u64 },
            Call::PathUnlinkFile { at: scratch, path: "file" },
        ],
        ends_with(
            path_create(),
            replies,
            if !ok(replies[0]) {
                Some(1u8)
            } else if !ok(replies[1]) {
                None
            } else {
                Some(0u8)
            },
        ),
{
    reveal_with_fuel(replay, 3);
    reveal_with_fuel(issued, 3);
    reveal_with_fuel(crate::script::settle, 3);
}

/// The script of `test_path_exists`.
pub open spec fn path_exists() -> ScriptView {
    ScriptView { ops: test_path_exists_ops(), spaced: true, guard: Guard::Plain }
}

/// Creating an existing file exclusively: the test creates "file", opens it
/// again with `OFLAGS_CREAT | OFLAGS_EXCL`, and passes exactly when that is
/// refused with `ERRNO_EXIST` (and the file is then removed).
pub proof fn lemma_exclusive_create_is_exist(scratch: u32, replies: Seq<ReplyView>)
    requires
        replies.len() == 3,
    ensures
        ok(replies[0]) ==> waiting(
            path_exists(),
            scratch,
            replay(path_exists(), start(path_exists()), replies.take(1)),
        ) == Some(
            Call::PathOpen {
                at: scratch,
                path: "file",
                oflags: OFLAGS_CREAT | OFLAGS_EXCL,
                base: 0u64,
                inheriting: 0u64,
            },
        ),
        ends_with(
            path_exists(),
            replies,
            if !ok(replies[0]) {
                None
            } else if !refused_with(replies[1], ERRNO_EXIST) {
                Some(1u8)
            } else if !ok(replies[2]) {
                None
            } else {
                Some(0u8)
            },
        ),
{
    assert(replies.take(1).drop_first() =~= Seq::<ReplyView>::empty());
    reveal_with_fuel(replay, 4);
    reveal_with_fuel(crate::script::settle, 3);
}

/// The script of `test_path_fd_notdir`.
pub open spec fn path_fd_notdir() -> ScriptView {
    ScriptView { ops: test_path_fd_notdir_ops(), spaced: true, guard: Guard::Plain }
}

/// Opening under a file: the test creates "file", then opens
/// "another_file" under the descriptor it got, and passes exactly when that
/// is refused with `ERRNO_NOTDIR` (and the file is then removed).
pub proof fn lemma_file_is_not_a_directory(scratch: u32, fd: u32, replies: Seq<ReplyView>)
    requires
        replies.len() == 3,
        replies[0] == ReplyView::Opened(fd),
    ensures
        waiting(
            path_fd_notdir(),
            scratch,
            replay(path_fd_notdir(), start(path_fd_notdir()), replies.take(1)),
        ) == Some(
            Call::PathOpen { at: fd, path: "another_file", oflags: OFLAGS_CREAT, base: 0u64, inheriting: 0u64 },
        ),
        ends_with(
            path_fd_notdir(),
            replies,
            if !refused_with(replies[1], ERRNO_NOTDIR) {
                Some(1u8)
            } else if !ok(replies[2]) {
                None
            } else {
                Some(0u8)
            },
        ),
{
    assert(replies.take(1).drop_first() =~= Seq::<ReplyView>::empty());
    reveal_with_fuel(replay, 4);
    reveal_with_fuel(crate::script::settle, 3);
}

/// The script of `test_path_directory`.
pub open spec fn path_directory() -> ScriptView {
    ScriptView { ops: test_path_directory_ops(), spaced: true, guard: Guard::Plain }
}

/// `OFLAGS_DIRECTORY`: the test creates "inner_dir" and "file", opens
/// "file" with `OFLAGS_DIRECTORY`, which must be refused with
/// `ERRNO_NOTDIR`, then opens "inner_dir" with it, which must succeed; it
/// passes exactly when both do and the directory and the file are removed.
pub proof fn lemma_directory_flag_needs_a_directory(scratch: u32, replies: Seq<ReplyView>)
    requires
        replies.len() == 6,
        ok(replies[0]),
        ok(replies[1]),
    ensures
        ok(replies[2]) || refused_with(replies[2], ERRNO_NOTDIR) ==> issued(
            path_directory(),
            scratch,
            start(path_directory()),
            replies.take(3),
        ) == seq![
            Call::PathCreateDirectory { at: scratch, path: "inner_dir" },
            Call::PathOpen { at: scratch, path: "file", oflags: OFLAGS_CREAT, base: 0u64, inheriting: 0u64 },
            Call::PathOpen { at: scratch, path: "file", oflags: OFLAGS_DIRECTORY, base: 0u64, inheriting: 0u64 },
        ] + if refused_with(replies[2], ERRNO_NOTDIR) {
            seq![
                Call::PathOpen {
                    at: scratch,
                    path: "inner_dir",
                    oflags: OFLAGS_DIRECTORY,
                    base: 0u64,
                    inheriting: 0u64,
                },
            ]
        } else {
            Seq::empty()
        },
        ends_with(
            path_directory(),
            replies,
            if !refused_with(replies[2], ERRNO_NOTDIR) {
                Some(1u8)
            } else if !ok(replies[3]) {
                Some(1u8)
            } else if !ok(replies[4]) || !ok(replies[5]) {
                None
            } else {
                Some(0u8)
            },
        ),
{
    let t3 = replies.take(3);
    assert(t3.drop_first().drop_first().drop_first() =~= Seq::<ReplyView>::empty());
    assert(replies.drop_first().drop_first().drop_first().drop_first().drop_first().drop_first()
        =~= Seq::<ReplyView>::empty());
    reveal_with_fuel(replay, 7);
    reveal_with_fuel(issued, 4);
    reveal_with_fuel(crate::script::settle, 3);
}

/// The script of `simple_unlink`.
pub open spec fn simple_unlinked() -> ScriptView {
    ScriptView { ops: simple_unlink_ops(), spaced: true, guard: Guard::Plain }
}

/// An unlinked file is gone: the test creates "file", unlinks it (a refusal
/// fails the test), opens "file" again, and passes exactly when that is
/// refused with `ERRNO_NOENT`.
pub proof fn lemma_unlinked_file_is_noent(scratch: u32, replies: Seq<ReplyView>)
    requires
        replies.len() == 3,
    ensures
        ok(replies[0]) && ok(replies[1]) ==> issued(
            simple_unlinked(),
            scratch,
            start(simple_unlinked()),
            replies,
        ) == seq![
            Call::PathOpen { at: scratch, path: "file", oflags: OFLAGS_CREAT, base: 0u64, inheriting: 0u64 },
            Call::PathUnlinkFile { at: scratch, path: "file" },
            Call::PathOpen { at: scratch, path: "file", oflags: 0u16, base: 0u64, inheriting: 0u64 },
        ],
        ends_with(
            simple_unlinked(),
            replies,
            if !ok(replies[0]) {
                None
            } else if !ok(replies[1]) {
                Some(1u8)
            } else if refused_with(replies[2], ERRNO_NOENT) {
                Some(0u8)
            } else {
                Some(1u8)
            },
        ),
{
    assert(replies.drop_first().drop_first().drop_first() =~= Seq::<ReplyView>::empty());
    reveal_with_fuel(replay, 4);
    reveal_with_fuel(issued, 4);
    reveal_with_fuel(crate::script::settle, 3);
}

/// The script of `unlink_dir`.
pub open spec fn unlinked_dir() -> ScriptView {
    ScriptView { ops: unlink_dir_ops(), spaced: true, guard: Guard::Plain }
}

/// A directory cannot be unlinked as a file: the test creates "new_dir",
/// opens it as a directory, calls `path_unlink_file` on it, and passes
/// exactly when that is refused with `ERRNO_ISDIR`.
pub proof fn lemma_unlinking_a_directory_is_isdir(scratch: u32, replies: Seq<ReplyView>)
    requires
        replies.len() == 3,
    ensures
        ok(replies[0]) && ok(replies[1]) ==> issued(
            unlinked_dir(),
            scratch,
            start(unlinked_dir()),
            replies,
        ) == seq![
            Call::PathCreateDirectory { at: scratch, path: "new_dir" },
            Call::PathOpen {
                at: scratch,
                path: "new_dir",
                oflags: OFLAGS_DIRECTORY,
                base: 0u64,
                inheriting: 0u64,
            },
            Call::PathUnlinkFile { at: scratch, path: "new_dir" },
        ],
        ends_with(
            unlinked_dir(),
            replies,
            if !ok(replies[0]) || !ok(replies[1]) {
                None
            } else if refused_with(replies[2], ERRNO_ISDIR) {
                Some(0u8)
            } else {
                Some(1u8)
            },
        ),
{
    assert(replies.drop_first().drop_first().drop_first() =~= Seq::<ReplyView>::empty());
    reveal_with_fuel(replay, 4);
    reveal_with_fuel(issued, 4);
    reveal_with_fuel(crate::script::settle, 3);
}

/// The script of `test_path_create_directory`.
pub open spec fn create_directory() -> ScriptView {
    ScriptView { ops: test_path_create_directory_ops(), spaced: true, guard: Guard::Plain }
}

/// A new directory opens as a directory: the test creates "new_dir", opens
/// it with `OFLAGS_DIRECTORY` (a refusal fails the test) and removes it.
pub proof fn lemma_new_directory_opens(scratch: u32, replies: Seq<ReplyView>)
    requires
        replies.len() == 3,
    ensures
        ok(replies[0]) && ok(replies[1]) ==> issued(
            create_directory(),
            scratch,
            start(create_directory()),
            replies,
        ) == seq![
            Call::PathCreateDirectory { at: scratch, path: "new_dir" },
            Call::PathOpen {
                at: scratch,
                path: "new_dir",
                oflags: OFLAGS_DIRECTORY,
                base: 0u64,
                inheriting: 0u64,
            },
            Call::PathRemoveDirectory { at: scratch, path: "new_dir" },
        ],
        ends_with(
            create_directory(),
            replies,
            if !ok(replies[0]) {
                None
            } else if !ok(replies[1]) {
                Some(1u8)
            } else if !ok(replies[2]) {
                None
            } else {
                Some(0u8)
            },
        ),
{
    assert(replies.drop_first().drop_first().drop_first() =~= Seq::<ReplyView>::empty());
    reveal_with_fuel(replay, 4);
    reveal_with_fuel(issued, 4);
    reveal_with_fuel(crate::script::settle, 3);
}

/// The script of `test_zero_one_two` of `fd_prestat_dir_name`.
pub open spec fn stdio_dir_names() -> ScriptView {
    ScriptView { ops: test_zero_one_two_ops(), spaced: false, guard: Guard::Plain }
}

/// The standard descriptors have no preopened name: the test asks
/// `fd_prestat_dir_name` of the descriptors 0, 1 and 2 in turn, and passes
/// exactly when each is refused with `ERRNO_NOTDIR`; it stops at the first
/// that is not.
pub proof fn lemma_stdio_names_are_notdir(replies: Seq<ReplyView>)
    requires
        replies.len() == 3,
    ensures
        issued(stdio_dir_names(), 0, start(stdio_dir_names()), replies) == if !refused_with(
            replies[0],
            ERRNO_NOTDIR,
        ) {
            seq![Call::FdPrestatDirName { fd: 0u32, len: 5usize }]
        } else if !refused_with(replies[1], ERRNO_NOTDIR) {
            seq![
                Call::FdPrestatDirName { fd: 0u32, len: 5usize },
                Call::FdPrestatDirName { fd: 1u32, len: 6usize },
            ]
        } else {
            seq![
                Call::FdPrestatDirName { fd: 0u32, len: 5usize },
                Call::FdPrestatDirName { fd: 1u32, len: 6usize },
                Call::FdPrestatDirName { fd: 2u32, len: 6usize },
            ]
        },
        ends_with(
            stdio_dir_names(),
            replies,
            if refused_with(replies[0], ERRNO_NOTDIR) && refused_with(replies[1], ERRNO_NOTDIR)
                && refused_with(replies[2], ERRNO_NOTDIR) {
                Some(0u8)
            } else {
                Some(1u8)
            },
        ),
{
    assert(replies.drop_first().drop_first().drop_first() =~= Seq::<ReplyView>::empty());
    reveal_with_fuel(replay, 4);
    reveal_with_fuel(issued, 4);
    reveal_with_fuel(crate::script::settle, 3);
}

/// The script of `test_zero_one_two_fd` of `fd_prestat_get`.
pub open spec fn stdio_prestats() -> ScriptView {
    ScriptView { ops: test_zero_one_two_fd_ops(), spaced: false, guard: Guard::Plain }
}

/// The standard descriptors are not preopened: the test asks
/// `fd_prestat_get` of the descriptors 0, 1 and 2 in turn, and passes
/// exactly when each is refused with `ERRNO_BADF`; it stops at the first
/// that is not.
pub proof fn lemma_stdio_prestats_are_badf(replies: Seq<ReplyView>)
    requires
        replies.len() == 3,
    ensures
        issued(stdio_prestats(), 0, start(stdio_prestats()), replies) == if !refused_with(
            replies[0],
            ERRNO_BADF,
        ) {
            seq![Call::FdPrestatGet { fd: 0u32 }]
        } else if !refused_with(replies[1], ERRNO_BADF) {
            seq![Call::FdPrestatGet { fd: 0u32 }, Call::FdPrestatGet { fd: 1u32 }]
        } else {
            seq![
                Call::FdPrestatGet { fd: 0u32 },
                Call::FdPrestatGet { fd: 1u32 },
                Call::FdPrestatGet { fd: 2u32 },
            ]
        },
        ends_with(
            stdio_prestats(),
            replies,
            if refused_with(replies[0], ERRNO_BADF) && refused_with(replies[1], ERRNO_BADF)
                && refused_with(replies[2], ERRNO_BADF) {
                Some(0u8)
            } else {
                Some(1u8)
            },
        ),
{
    assert(replies.drop_first().drop_first().drop_first() =~= Seq::<ReplyView>::empty());
    reveal_with_fuel(replay, 4);
    reveal_with_fuel(issued, 4);
    reveal_with_fuel(crate::script::settle, 3);
}

/// The script of `test_regular_file_stat`.
pub open spec fn regular_file_stat() -> ScriptView {
    ScriptView { ops: test_regular_file_stat_ops(), spaced: true, guard: Guard::Plain }
}

/// The `fdstat` of a new file: the test creates "file" and asks for the
/// `fdstat` of the descriptor it got back. It fails (result 1) unless the
/// file type is named "REGULAR_FILE"; with that type, it ends the program
/// unless the flags and both rights are 0, and then passes once the file is
/// removed.
pub proof fn lemma_file_stat_is_regular(scratch: u32, fd: u32, st: FdStatView, removed: ReplyView)
    requires
        ok(removed),
    ensures
        waiting(
            regular_file_stat(),
            scratch,
            replay(regular_file_stat(), start(regular_file_stat()), seq![ReplyView::Opened(fd)]),
        ) == Some(Call::FdFdstatGet { fd }),
        ends_with(
            regular_file_stat(),
            seq![ReplyView::Opened(fd), ReplyView::FdStat(st), removed],
            if st.filetype_name != "REGULAR_FILE"@ {
                Some(1u8)
            } else if st.flags == 0 && st.rights_base == 0 && st.rights_inheriting == 0 {
                Some(0u8)
            } else {
                None
            },
        ),
{
    let s = regular_file_stat();
    lemma_full_mask(st.flags as u64);
    lemma_full_mask(st.rights_base);
    lemma_full_mask(st.rights_inheriting);
    reveal_with_fuel(crate::script::settle, 6);
    let s0 = start(s);
    assert(s0.pc == 0 && s0.verdict is None);
    let s1 = after(s, s0, ReplyView::Opened(fd));
    assert(s1.pc == 1 && s1.verdict is None && s1.opened[0] == Some(fd));
    let s2 = after(s, s1, ReplyView::FdStat(st));
    if st.filetype_name == "REGULAR_FILE"@ && st.flags == 0 && st.rights_base == 0 && st.rights_inheriting == 0 {
        assert(s2.pc == 6 && s2.verdict is None);
        assert(after(s, s2, removed).verdict == Some(VerdictView::Passed));
    } else {
        assert(s2.verdict is Some);
    }
    let three = seq![ReplyView::Opened(fd), ReplyView::FdStat(st), removed];
    assert(three.drop_first()[0] == ReplyView::FdStat(st));
    assert(three.drop_first().drop_first()[0] == removed);
    assert(three.drop_first().drop_first().drop_first() =~= Seq::<ReplyView>::empty());
    assert(seq![ReplyView::Opened(fd)].drop_first() =~= Seq::<ReplyView>::empty());
    reveal_with_fuel(replay, 4);
}

/// Whether the answer is a `filestat` whose size and times are all 0.
pub open spec fn zero_stat(r: ReplyView) -> bool {
    r matches ReplyView::FileStat(f) && f.size == 0 && f.atim == 0 && f.mtim == 0 && f.ctim == 0
}

/// The script of `test_stdin_stdout_stderr`.
pub open spec fn stdio_stats() -> ScriptView {
    ScriptView { ops: test_stdin_stdout_stderr_ops(), spaced: true, guard: Guard::Catch }
}

/// The standard descriptors have empty stats: the test asks for the
/// `filestat` of the descriptors 0, 1 and 2 in turn, and passes exactly
/// when each is given with size and times 0; an error or any other value
/// fails it (the program does not end).
pub proof fn lemma_stdio_stats_are_zero(replies: Seq<ReplyView>)
    requires
        replies.len() == 3,
        forall|i: int| 0 <= i < 3 ==> (#[trigger] replies[i] is FileStat || replies[i] is Error),
    ensures
        waiting(stdio_stats(), 0, start(stdio_stats())) == Some(Call::FdFilestatGet { fd: 0u32 }),
        zero_stat(replies[0]) ==> waiting(
            stdio_stats(),
            0,
            replay(stdio_stats(), start(stdio_stats()), replies.take(1)),
        ) == Some(Call::FdFilestatGet { fd: 1u32 }),
        zero_stat(replies[0]) && zero_stat(replies[1]) ==> waiting(
            stdio_stats(),
            0,
            replay(stdio_stats(), start(stdio_stats()), replies.take(2)),
        ) == Some(Call::FdFilestatGet { fd: 2u32 }),
        ends_with(
            stdio_stats(),
            replies,
            if zero_stat(replies[0]) && zero_stat(replies[1]) && zero_stat(replies[2]) {
                Some(0u8)
            } else {
                Some(1u8)
            },
        ),
{
    let s = stdio_stats();
    assert(replies[0] is FileStat || replies[0] is Error);
    assert(replies[1] is FileStat || replies[1] is Error);
    assert(replies[2] is FileStat || replies[2] is Error);
    reveal_with_fuel(crate::script::settle, 6);
    let s0 = start(s);
    assert(s0.pc == 0 && s0.verdict is None);
    let s1 = after(s, s0, replies[0]);
    if let ReplyView::FileStat(f) = replies[0] {
        lemma_full_mask(f.size);
        lemma_full_mask(f.atim);
        lemma_full_mask(f.mtim);
        lemma_full_mask(f.ctim);
    }
    if zero_stat(replies[0]) {
        assert(s1.pc == 5 && s1.verdict is None);
        let s2 = after(s, s1, replies[1]);
        if let ReplyView::FileStat(f) = replies[1] {
            lemma_full_mask(f.size);
            lemma_full_mask(f.atim);
            lemma_full_mask(f.mtim);
            lemma_full_mask(f.ctim);
        }
        if zero_stat(replies[1]) {
            assert(s2.pc == 10 && s2.verdict is None);
            let s3 = after(s, s2, replies[2]);
            if let ReplyView::FileStat(f) = replies[2] {
                lemma_full_mask(f.size);
                lemma_full_mask(f.atim);
                lemma_full_mask(f.mtim);
                lemma_full_mask(f.ctim);
            }
            if zero_stat(replies[2]) {
                assert(s3.verdict == Some(VerdictView::Passed));
            } else {
                assert(s3.verdict matches Some(v) && result_code(v) == Some(1u8));
            }
        } else {
            assert(s2.verdict matches Some(v) && result_code(v) == Some(1u8));
        }
    } else {
        assert(s1.verdict matches Some(v) && result_code(v) == Some(1u8));
    }
    assert(replies.take(1).drop_first() =~= Seq::<ReplyView>::empty());
    assert(replies.take(2).drop_first().drop_first() =~= Seq::<ReplyView>::empty());
    assert(replies.drop_first().drop_first().drop_first() =~= Seq::<ReplyView>::empty());
    reveal_with_fuel(replay, 4);
}

/// The script of `test_fdread_rights`.
pub open spec fn fdread_rights() -> ScriptView {
    ScriptView { ops: test_fdread_rights_ops(), spaced: true, guard: Guard::Plain }
}

/// Reading needs `RIGHTS_FD_READ`: the test creates "file" with no rights
/// and asks for its `fdstat`, which must show `RIGHTS_FD_READ` neither in
/// the base nor in the inheriting rights; reading a byte from it must then
/// be refused with `ERRNO_BADF`. It opens "file" again with
/// `RIGHTS_FD_READ`, and reading a byte from that descriptor must succeed.
/// It passes exactly when all of this holds (and the file is removed), and
/// fails otherwise.
pub proof fn lemma_read_needs_the_read_right(
    scratch: u32,
    a: u32,
    st: FdStatView,
    b: u32,
    replies: Seq<ReplyView>,
)
    requires
        replies.len() == 6,
        replies[0] == ReplyView::Opened(a),
        replies[1] == ReplyView::FdStat(st),
        replies[3] == ReplyView::Opened(b),
        ok(replies[5]),
    ensures
        ({
            let clean = st.rights_base & RIGHTS_FD_READ == 0 && st.rights_inheriting & RIGHTS_FD_READ == 0;
            &&& clean && refused_with(replies[2], ERRNO_BADF) ==> issued(
                fdread_rights(),
                scratch,
                start(fdread_rights()),
                replies,
            ) == seq![
                Call::PathOpen { at: scratch, path: "file", oflags: OFLAGS_CREAT, base: 0u64, inheriting: 0u64 },
                Call::FdFdstatGet { fd: a },
                Call::FdRead { fd: a, len: 1usize },
                Call::PathOpen {
                    at: scratch,
                    path: "file",
                    oflags: OFLAGS_CREAT,
                    base: RIGHTS_FD_READ,
                    inheriting: 0u64,
                },
                Call::FdRead { fd: b, len: 1usize },
            ] + if ok(replies[4]) {
                seq![Call::PathUnlinkFile { at: scratch, path: "file" }]
            } else {
                Seq::empty()
            }
            &&& ends_with(
                fdread_rights(),
                replies,
                if clean && refused_with(replies[2], ERRNO_BADF) && ok(replies[4]) {
                    Some(0u8)
                } else {
                    Some(1u8)
                },
            )
        }),
{
    let s = fdread_rights();
    reveal_with_fuel(crate::script::settle, 4);
    let s0 = start(s);
    assert(s0.pc == 0 && s0.verdict is None);
    let s1 = after(s, s0, replies[0]);
    assert(s1.pc == 1 && s1.verdict is None && s1.opened[0] == Some(a));
    let s2 = after(s, s1, replies[1]);
    let clean = st.rights_base & RIGHTS_FD_READ == 0 && st.rights_inheriting & RIGHTS_FD_READ == 0;
    if clean {
        assert(s2.pc == 4 && s2.verdict is None && s2.opened[0] == Some(a));
        let s3 = after(s, s2, replies[2]);
        if refused_with(replies[2], ERRNO_BADF) {
            assert(s3.pc == 5 && s3.verdict is None);
            let s4 = after(s, s3, replies[3]);
            assert(s4.pc == 6 && s4.verdict is None && s4.opened[5] == Some(b));
            let s5 = after(s, s4, replies[4]);
            if ok(replies[4]) {
                assert(s5.pc == 7 && s5.verdict is None);
                assert(after(s, s5, replies[5]).verdict == Some(VerdictView::Passed));
            } else {
                assert(s5.verdict matches Some(v) && result_code(v) == Some(1u8));
            }
        } else {
            assert(s3.verdict matches Some(v) && result_code(v) == Some(1u8));
        }
    } else {
        assert(s2.verdict matches Some(v) && result_code(v) == Some(1u8));
    }
    assert(replies.drop_first().drop_first().drop_first().drop_first().drop_first().drop_first()
        =~= Seq::<ReplyView>::empty());
    reveal_with_fuel(replay, 7);
    reveal_with_fuel(issued, 7);
}

/// The script of `fd_allocate_test`.
pub open spec fn allocate() -> ScriptView {
    ScriptView { ops: fd_allocate_test_ops(), spaced: true, guard: Guard::Plain }
}

/// `fd_allocate` grows a file to cover the range, and never shrinks it: the
/// test creates "file" (size 0), allocates 100 bytes from offset 0 (size
/// 100), 10 bytes from offset 10 (size still 100), and 50 bytes from offset
/// 80 (size 130), asking for the size after each. It passes exactly when the
/// sizes are 0, 100, 100 and 130; any other size ends the program.
pub proof fn lemma_allocate_sizes(scratch: u32, fd: u32, replies: Seq<ReplyView>)
    requires
        replies.len() == 9,
        replies[0] == ReplyView::Opened(fd),
        replies[1] is FileStat,
        replies[3] is FileStat,
        replies[5] is FileStat,
        replies[7] is FileStat,
        forall|i: int| 0 <= i < 9 ==> !(#[trigger] replies[i] is Error),
    ensures
        ({
            let sizes_right = replies[1]->FileStat_0.size == 0 && replies[3]->FileStat_0.size == 100
                && replies[5]->FileStat_0.size == 100 && replies[7]->FileStat_0.size == 130;
            &&& sizes_right ==> issued(allocate(), scratch, start(allocate()), replies) == seq![
                Call::PathOpen {
                    at: scratch,
                    path: "file",
                    oflags: OFLAGS_CREAT,
                    base: RIGHTS_FD_ALLOCATE | RIGHTS_FD_FILESTAT_GET,
                    inheriting: 0u64,
                },
                Call::FdFilestatGet { fd },
                Call::FdAllocate { fd, offset: 0u64, len: 100u64 },
                Call::FdFilestatGet { fd },
                Call::FdAllocate { fd, offset: 10u64, len: 10u64 },
                Call::FdFilestatGet { fd },
                Call::FdAllocate { fd, offset: 80u64, len: 50u64 },
                Call::FdFilestatGet { fd },
                Call::PathUnlinkFile { at: scratch, path: "file" },
            ]
            &&& ends_with(allocate(), replies, if sizes_right { Some(0u8) } else { None })
        }),
{
    let s = allocate();
    assert(!(replies[2] is Error) && !(replies[4] is Error) && !(replies[6] is Error) && !(replies[8] is Error));
    lemma_full_mask(replies[1]->FileStat_0.size);
    lemma_full_mask(replies[3]->FileStat_0.size);
    lemma_full_mask(replies[5]->FileStat_0.size);
    lemma_full_mask(replies[7]->FileStat_0.size);
    reveal_with_fuel(crate::script::settle, 3);
    let s0 = start(s);
    assert(s0.pc == 0 && s0.verdict is None);
    let s1 = after(s, s0, replies[0]);
    assert(s1.pc == 1 && s1.verdict is None && s1.opened[0] == Some(fd));
    let s2 = after(s, s1, replies[1]);
    if replies[1]->FileStat_0.size == 0 {
        assert(s2.pc == 3 && s2.verdict is None && s2.opened[0] == Some(fd));
        let s3 = after(s, s2, replies[2]);
        assert(s3.pc == 4 && s3.verdict is None && s3.opened[0] == Some(fd));
        let s4 = after(s, s3, replies[3]);
        if replies[3]->FileStat_0.size == 100 {
            assert(s4.pc == 6 && s4.verdict is None && s4.opened[0] == Some(fd));
            let s5 = after(s, s4, replies[4]);
            assert(s5.pc == 7 && s5.verdict is None && s5.opened[0] == Some(fd));
            let s6 = after(s, s5, replies[5]);
            if replies[5]->FileStat_0.size == 100 {
                assert(s6.pc == 9 && s6.verdict is None && s6.opened[0] == Some(fd));
                let s7 = after(s, s6, replies[6]);
                assert(s7.pc == 10 && s7.verdict is None && s7.opened[0] == Some(fd));
                let s8 = after(s, s7, replies[7]);
                if replies[7]->FileStat_0.size == 130 {
                    assert(s8.pc == 12 && s8.verdict is None);
                    assert(after(s, s8, replies[8]).verdict == Some(VerdictView::Passed));
                } else {
                    assert(s8.verdict matches Some(v) && result_code(v) == None::<u8>);
                }
            } else {
                assert(s6.verdict matches Some(v) && result_code(v) == None::<u8>);
            }
        } else {
            assert(s4.verdict matches Some(v) && result_code(v) == None::<u8>);
        }
    } else {
        assert(s2.verdict matches Some(v) && result_code(v) == None::<u8>);
    }
    assert(replies.drop_first().drop_first().drop_first().drop_first().drop_first().drop_first()
        .drop_first().drop_first().drop_first() =~= Seq::<ReplyView>::empty());
    reveal_with_fuel(replay, 10);
    reveal_with_fuel(issued, 10);
}

/// The script of `add_file_rights`.
pub open spec fn adding_rights() -> ScriptView {
    ScriptView { ops: add_file_rights_ops(), spaced: true, guard: Guard::Plain }
}

/// Rights cannot be added: the test creates "file" with `RIGHTS_FD_SEEK`
/// and asks to set its base rights to `RIGHTS_FD_READ`, which must be
/// refused with `ERRNO_NOTCAPABLE`; it removes the file, creates and opens
/// "new_dir" with `RIGHTS_FD_READDIR` and inheriting `RIGHTS_FD_READ`, and
/// asks to set them to `RIGHTS_FD_FILESTAT_GET` and `RIGHTS_FD_READDIR`,
/// which must be refused with `ERRNO_NOTCAPABLE` too. It passes exactly
/// when both are refused so (and the directory is removed).
pub proof fn lemma_adding_rights_is_notcapable(
    scratch: u32,
    file: u32,
    dir: u32,
    replies: Seq<ReplyView>,
)
    requires
        replies.len() == 7,
        replies[0] == ReplyView::Opened(file),
        ok(replies[2]),
        ok(replies[3]),
        replies[4] == ReplyView::Opened(dir),
        ok(replies[6]),
    ensures
        refused_with(replies[1], ERRNO_NOTCAPABLE) && refused_with(replies[5], ERRNO_NOTCAPABLE)
            ==> issued(adding_rights(), scratch, start(adding_rights()), replies) == seq![
            Call::PathOpen { at: scratch, path: "file", oflags: OFLAGS_CREAT, base: RIGHTS_FD_SEEK, inheriting: 0u64 },
            Call::FdFdstatSetRights { fd: file, base: RIGHTS_FD_READ, inheriting: 0u64 },
            Call::PathUnlinkFile { at: scratch, path: "file" },
            Call::PathCreateDirectory { at: scratch, path: "new_dir" },
            Call::PathOpen {
                at: scratch,
                path: "new_dir",
                oflags: OFLAGS_DIRECTORY,
                base: RIGHTS_FD_READDIR,
                inheriting: RIGHTS_FD_READ,
            },
            Call::FdFdstatSetRights { fd: dir, base: RIGHTS_FD_FILESTAT_GET, inheriting: RIGHTS_FD_READDIR },
            Call::PathRemoveDirectory { at: scratch, path: "new_dir" },
        ],
        ends_with(
            adding_rights(),
            replies,
            if refused_with(replies[1], ERRNO_NOTCAPABLE) && refused_with(replies[5], ERRNO_NOTCAPABLE) {
                Some(0u8)
            } else {
                Some(1u8)
            },
        ),
{
    let s = adding_rights();
    reveal_with_fuel(crate::script::settle, 2);
    let s0 = start(s);
    assert(s0.pc == 0 && s0.verdict is None);
    let s1 = after(s, s0, replies[0]);
    assert(s1.pc == 1 && s1.verdict is None && s1.opened[0] == Some(file));
    let s2 = after(s, s1, replies[1]);
    if refused_with(replies[1], ERRNO_NOTCAPABLE) {
        assert(s2.pc == 2 && s2.verdict is None);
        let s3 = after(s, s2, replies[2]);
        assert(s3.pc == 3 && s3.verdict is None);
        let s4 = after(s, s3, replies[3]);
        assert(s4.pc == 4 && s4.verdict is None);
        let s5 = after(s, s4, replies[4]);
        assert(s5.pc == 5 && s5.verdict is None && s5.opened[4] == Some(dir));
        let s6 = after(s, s5, replies[5]);
        if refused_with(replies[5], ERRNO_NOTCAPABLE) {
            assert(s6.pc == 6 && s6.verdict is None);
            assert(after(s, s6, replies[6]).verdict == Some(VerdictView::Passed));
        } else {
            assert(s6.verdict matches Some(v) && result_code(v) == Some(1u8));
        }
    } else {
        assert(s2.verdict matches Some(v) && result_code(v) == Some(1u8));
    }
    assert(replies.drop_first().drop_first().drop_first().drop_first().drop_first().drop_first()
        .drop_first() =~= Seq::<ReplyView>::empty());
    reveal_with_fuel(replay, 8);
    reveal_with_fuel(issued, 8);
}

/// Whether the bit is among the rights.
pub open spec fn has_right(rights: u64, bit: u64) -> bool {
    rights & bit != 0
}

/// The script of `remove_file_rights`.
pub open spec fn dropping_rights() -> ScriptView {
    ScriptView { ops: remove_file_rights_ops(), spaced: true, guard: Guard::Plain }
}

/// Rights can be dropped, one at a time and all at once: the test creates
/// "file" with `RIGHTS_FD_READ | RIGHTS_FD_SYNC`, whose `fdstat` must show
/// both; it sets the base rights to `RIGHTS_FD_SYNC` (a refusal fails the
/// test), after which only `RIGHTS_FD_SYNC` may show, then to none, after
/// which neither may; it removes the file, creates and opens "new_dir" with
/// `RIGHTS_FD_READDIR` and inheriting `RIGHTS_FD_READ`, which must show,
/// and drops both at once (a refusal fails the test), after which neither
/// may show. A right shown or missing against this ends the program; the
/// test passes when the directory is removed at the end.
pub proof fn lemma_dropping_rights(
    scratch: u32,
    file: u32,
    dir: u32,
    stats: Seq<FdStatView>,
    replies: Seq<ReplyView>,
)
    requires
        replies.len() == 13,
        stats.len() == 5,
        replies[0] == ReplyView::Opened(file),
        replies[1] == ReplyView::FdStat(stats[0]),
        replies[3] == ReplyView::FdStat(stats[1]),
        replies[5] == ReplyView::FdStat(stats[2]),
        replies[8] == ReplyView::Opened(dir),
        replies[9] == ReplyView::FdStat(stats[3]),
        replies[11] == ReplyView::FdStat(stats[4]),
        ok(replies[6]),
        ok(replies[7]),
        ok(replies[12]),
    ensures
        ({
            let b = |k: int, bit: u64| has_right(stats[k].rights_base, bit);
            let i = |k: int, bit: u64| has_right(stats[k].rights_inheriting, bit);
            let first = b(0, RIGHTS_FD_READ) && b(0, RIGHTS_FD_SYNC);
            let second = !b(1, RIGHTS_FD_READ) && b(1, RIGHTS_FD_SYNC);
            let third = !b(2, RIGHTS_FD_READ) && !b(2, RIGHTS_FD_SYNC);
            let fourth = b(3, RIGHTS_FD_READDIR) && i(3, RIGHTS_FD_READ);
            let fifth = !b(4, RIGHTS_FD_READDIR) && !i(4, RIGHTS_FD_READ);
            &&& first && ok(replies[2]) && second && ok(replies[4]) && third && fourth && ok(replies[10])
                ==> issued(dropping_rights(), scratch, start(dropping_rights()), replies) == seq![
                Call::PathOpen {
                    at: scratch,
                    path: "file",
                    oflags: OFLAGS_CREAT,
                    base: RIGHTS_FD_READ | RIGHTS_FD_SYNC,
                    inheriting: 0u64,
                },
                Call::FdFdstatGet { fd: file },
                Call::FdFdstatSetRights { fd: file, base: RIGHTS_FD_SYNC, inheriting: 0u64 },
                Call::FdFdstatGet { fd: file },
                Call::FdFdstatSetRights { fd: file, base: 0u64, inheriting: 0u64 },
                Call::FdFdstatGet { fd: file },
                Call::PathUnlinkFile { at: scratch, path: "file" },
                Call::PathCreateDirectory { at: scratch, path: "new_dir" },
                Call::PathOpen {
                    at: scratch,
                    path: "new_dir",
                    oflags: OFLAGS_DIRECTORY,
                    base: RIGHTS_FD_READDIR,
                    inheriting: RIGHTS_FD_READ,
                },
                Call::FdFdstatGet { fd: dir },
                Call::FdFdstatSetRights { fd: dir, base: 0u64, inheriting: 0u64 },
                Call::FdFdstatGet { fd: dir },
            ] + if fifth {
                seq![Call::PathRemoveDirectory { at: scratch, path: "new_dir" }]
            } else {
                Seq::empty()
            }
            &&& ends_with(
                dropping_rights(),
                replies,
                if !first {
                    None
                } else if !ok(replies[2]) {
                    Some(1u8)
                } else if !second {
                    None
                } else if !ok(replies[4]) {
                    Some(1u8)
                } else if !third || !fourth {
                    None
                } else if !ok(replies[10]) {
                    Some(1u8)
                } else if !fifth {
                    None
                } else {
                    Some(0u8)
                },
            )
        }),
{
    let s = dropping_rights();
    reveal_with_fuel(crate::script::settle, 4);
    let b = |k: int, bit: u64| has_right(stats[k].rights_base, bit);
    let i = |k: int, bit: u64| has_right(stats[k].rights_inheriting, bit);
    let rest = |k: int| replies.subrange(k, 13);
    assert(rest(0) =~= replies);
    assert forall|k: int| 0 <= k < 13 implies #[trigger] rest(k).drop_first() =~= rest(k + 1) && rest(k)[0]
        == replies[k] by {}
    assert(rest(13) =~= Seq::<ReplyView>::empty());
    let s0 = start(s);
    assert(s0.pc == 0 && s0.verdict is None);
    lemma_step(s, scratch, s0, rest(0));
    let s1 = after(s, s0, replies[0]);
    assert(s1.pc == 1 && s1.verdict is None && s1.opened[0] == Some(file));
    lemma_step(s, scratch, s1, rest(1));
    let s2 = after(s, s1, replies[1]);
    if !(b(0, RIGHTS_FD_READ) && b(0, RIGHTS_FD_SYNC)) {
        assert(s2.verdict matches Some(v) && result_code(v) == None::<u8>);
        lemma_stopped(s, scratch, s2, rest(2));
    } else {
        assert(s2.pc == 4 && s2.verdict is None && s2.opened[0] == Some(file));
        lemma_step(s, scratch, s2, rest(2));
        let s3 = after(s, s2, replies[2]);
        if !ok(replies[2]) {
            assert(s3.verdict matches Some(v) && result_code(v) == Some(1u8));
            lemma_stopped(s, scratch, s3, rest(3));
        } else {
            assert(s3.pc == 5 && s3.verdict is None && s3.opened[0] == Some(file));
            lemma_step(s, scratch, s3, rest(3));
            let s4 = after(s, s3, replies[3]);
            if !(!b(1, RIGHTS_FD_READ) && b(1, RIGHTS_FD_SYNC)) {
                assert(s4.verdict matches Some(v) && result_code(v) == None::<u8>);
                lemma_stopped(s, scratch, s4, rest(4));
            } else {
                assert(s4.pc == 8 && s4.verdict is None && s4.opened[0] == Some(file));
                lemma_step(s, scratch, s4, rest(4));
                let s5 = after(s, s4, replies[4]);
                if !ok(replies[4]) {
                    assert(s5.verdict matches Some(v) && result_code(v) == Some(1u8));
                    lemma_stopped(s, scratch, s5, rest(5));
                } else {
                    assert(s5.pc == 9 && s5.verdict is None && s5.opened[0] == Some(file));
                    lemma_step(s, scratch, s5, rest(5));
                    let s6 = after(s, s5, replies[5]);
                    if !(!b(2, RIGHTS_FD_READ) && !b(2, RIGHTS_FD_SYNC)) {
                        assert(s6.verdict matches Some(v) && result_code(v) == None::<u8>);
                        lemma_stopped(s, scratch, s6, rest(6));
                    } else {
                        lemma_dropping_dir_rights(scratch, dir, stats, replies, s6);
                    }
                }
            }
        }
    }
}

proof fn lemma_dropping_dir_rights(
    scratch: u32,
    dir: u32,
    stats: Seq<FdStatView>,
    replies: Seq<ReplyView>,
    s6: RunView,
)
    requires
        replies.len() == 13,
        stats.len() == 5,
        replies[8] == ReplyView::Opened(dir),
        replies[9] == ReplyView::FdStat(stats[3]),
        replies[11] == ReplyView::FdStat(stats[4]),
        ok(replies[6]),
        ok(replies[7]),
        ok(replies[12]),
        s6.pc == 12,
        s6.verdict is None,
        s6.opened.len() == dropping_rights().ops.len(),
    ensures
        ({
            let s = dropping_rights();
            let fourth = has_right(stats[3].rights_base, RIGHTS_FD_READDIR) && has_right(
                stats[3].rights_inheriting,
                RIGHTS_FD_READ,
            );
            let fifth = !has_right(stats[4].rights_base, RIGHTS_FD_READDIR) && !has_right(
                stats[4].rights_inheriting,
                RIGHTS_FD_READ,
            );
            &&& fourth && ok(replies[10]) ==> issued(s, scratch, s6, replies.subrange(6, 13)) == seq![
                Call::PathUnlinkFile { at: scratch, path: "file" },
                Call::PathCreateDirectory { at: scratch, path: "new_dir" },
                Call::PathOpen {
                    at: scratch,
                    path: "new_dir",
                    oflags: OFLAGS_DIRECTORY,
                    base: RIGHTS_FD_READDIR,
                    inheriting: RIGHTS_FD_READ,
                },
                Call::FdFdstatGet { fd: dir },
                Call::FdFdstatSetRights { fd: dir, base: 0u64, inheriting: 0u64 },
                Call::FdFdstatGet { fd: dir },
            ] + if fifth {
                seq![Call::PathRemoveDirectory { at: scratch, path: "new_dir" }]
            } else {
                Seq::empty()
            }
            &&& replay(s, s6, replies.subrange(6, 13)).verdict matches Some(v) && result_code(v) == if !fourth {
                None
            } else if !ok(replies[10]) {
                Some(1u8)
            } else if !fifth {
                None
            } else {
                Some(0u8)
            }
        }),
{
    let s = dropping_rights();
    reveal_with_fuel(crate::script::settle, 4);
    let b = |k: int, bit: u64| has_right(stats[k].rights_base, bit);
    let i = |k: int, bit: u64| has_right(stats[k].rights_inheriting, bit);
    let rest = |k: int| replies.subrange(k, 13);
    assert forall|k: int| 6 <= k < 13 implies #[trigger] rest(k).drop_first() =~= rest(k + 1) && rest(k)[0]
        == replies[k] by {}
    assert(rest(13) =~= Seq::<ReplyView>::empty());
    lemma_step(s, scratch, s6, rest(6));
    let s7 = after(s, s6, replies[6]);
    assert(s7.pc == 13 && s7.verdict is None);
    lemma_step(s, scratch, s7, rest(7));
    let s8 = after(s, s7, replies[7]);
    assert(s8.pc == 14 && s8.verdict is None);
    lemma_step(s, scratch, s8, rest(8));
    let s9 = after(s, s8, replies[8]);
    assert(s9.pc == 15 && s9.verdict is None && s9.opened[14] == Some(dir));
    lemma_step(s, scratch, s9, rest(9));
    let s10 = after(s, s9, replies[9]);
    if !(b(3, RIGHTS_FD_READDIR) && i(3, RIGHTS_FD_READ)) {
        assert(s10.verdict matches Some(v) && result_code(v) == None::<u8>);
        lemma_stopped(s, scratch, s10, rest(10));
    } else {
        assert(s10.pc == 18 && s10.verdict is None && s10.opened[14] == Some(dir));
        lemma_step(s, scratch, s10, rest(10));
        let s11 = after(s, s10, replies[10]);
        if !ok(replies[10]) {
            assert(s11.verdict matches Some(v) && result_code(v) == Some(1u8));
            lemma_stopped(s, scratch, s11, rest(11));
        } else {
            assert(s11.pc == 19 && s11.verdict is None && s11.opened[14] == Some(dir));
            lemma_step(s, scratch, s11, rest(11));
            let s12 = after(s, s11, replies[11]);
            if !(!b(4, RIGHTS_FD_READDIR) && !i(4, RIGHTS_FD_READ)) {
                assert(s12.verdict matches Some(v) && result_code(v) == None::<u8>);
                lemma_stopped(s, scratch, s12, rest(12));
            } else {
                assert(s12.pc == 22 && s12.verdict is None);
                lemma_step(s, scratch, s12, rest(12));
                let s13 = after(s, s12, replies[12]);
                assert(s13.verdict == Some(VerdictView::Passed));
                lemma_stopped(s, scratch, s13, rest(13));
            }
        }
    }
}

proof fn lemma_step(s: ScriptView, scratch: u32, st: RunView, replies: Seq<ReplyView>)
    requires
        replies.len() > 0,
        st.verdict is None,
        st.pc < s.ops.len(),
        s.ops[st.pc as int] is Call,
    ensures
        replay(s, st, replies) == replay(s, after(s, st, replies[0]), replies.drop_first()),
        issued(s, scratch, st, replies) == seq![waiting(s, scratch, st)->Some_0] + issued(
            s,
            scratch,
            after(s, st, replies[0]),
            replies.drop_first(),
        ),
{
}

proof fn lemma_stopped(s: ScriptView, scratch: u32, st: RunView, replies: Seq<ReplyView>)
    requires
        st.verdict is Some,
    ensures
        replay(s, st, replies) == st,
        issued(s, scratch, st, replies) == Seq::<Call<u32>>::empty(),
{
}

} // verus!
