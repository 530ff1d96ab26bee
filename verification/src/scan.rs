//! [`Scan`]: the search through the preopened descriptors, from 3 upward,
//! for a directory by its name or by the length of its name.

use vstd::prelude::*;
use vstd::string::StringSliceAdditionalSpecFns;

use crate::abi::{answers, Call, Reply, ReplyView, OFLAGS_DIRECTORY};
use crate::console::error_notice;
use crate::script::{Verdict, VerdictView};
use crate::console::{error_text, NoticeView};

verus! {

/// What a scan looks for.
pub enum Goal {
    /// A preopened directory (tag 0) with this name, which is then opened
    /// afresh, as `.`, with the rights of the preopened descriptor.
    ScratchDir(Vec<u8>),
    /// A preopened descriptor whose name has this length.
    NameLength(usize),
    /// A preopened descriptor with this name.
    Name(Vec<u8>),
}

/// The mathematical value of a [`Goal`].
pub enum GoalView {
    ScratchDir(Seq<u8>),
    NameLength(usize),
    Name(Seq<u8>),
}

impl View for Goal {
    type V = GoalView;

    open spec fn view(&self) -> GoalView {
        match self {
            Goal::ScratchDir(name) => GoalView::ScratchDir(name@),
            Goal::NameLength(n) => GoalView::NameLength(*n),
            Goal::Name(name) => GoalView::Name(name@),
        }
    }
}

/// How a scan ends.
#[derive(Debug)]
pub enum ScanEnd {
    /// At this descriptor: the one opened afresh when looking for the
    /// scratch directory, the preopened one otherwise.
    Found(u32),
    /// `fd_prestat_get` failed before anything was found.
    Missing,
    /// The program ends with the message.
    Aborted(String),
}

/// The mathematical value of a [`ScanEnd`].
pub enum ScanEndView {
    Found(u32),
    Missing,
    Aborted(Seq<char>),
}

impl View for ScanEnd {
    type V = ScanEndView;

    open spec fn view(&self) -> ScanEndView {
        match self {
            ScanEnd::Found(fd) => ScanEndView::Found(*fd),
            ScanEnd::Missing => ScanEndView::Missing,
            ScanEnd::Aborted(m) => ScanEndView::Aborted(m@),
        }
    }
}

/// Where a scan stands.
pub enum Phase {
    /// It asks `fd_prestat_get` about the descriptor.
    Probe(u32),
    /// It asks `fd_prestat_dir_name` for the descriptor's name, of this length.
    ReadName(u32, usize),
    /// It asks `fd_fdstat_get` for the descriptor's rights.
    Rights(u32),
    /// It opens `.` under the descriptor, with these base and inheriting rights.
    Open(u32, u64, u64),
    Ended(ScanEnd),
}

/// The mathematical value of a [`Phase`].
pub enum PhaseView {
    Probe(u32),
    ReadName(u32, usize),
    Rights(u32),
    Open(u32, u64, u64),
    Ended(ScanEndView),
}

impl View for Phase {
    type V = PhaseView;

    open spec fn view(&self) -> PhaseView {
        match self {
            Phase::Probe(fd) => PhaseView::Probe(*fd),
            Phase::ReadName(fd, len) => PhaseView::ReadName(*fd, *len),
            Phase::Rights(fd) => PhaseView::Rights(*fd),
            Phase::Open(fd, base, inheriting) => PhaseView::Open(*fd, *base, *inheriting),
            Phase::Ended(end) => PhaseView::Ended(end@),
        }
    }
}

/// The message with which the program ends when the descriptor count
/// would pass `u32::MAX`.
pub open spec fn overflow_text() -> Seq<char> {
    "attempt to add with overflow"@
}

/// The scan's next descriptor after `fd`; the range `3..` of `u32` ends the
/// program when it would step past `u32::MAX`, so `u32::MAX` itself is never
/// tried.
pub open spec fn next_probe(fd: u32) -> PhaseView {
    if fd < u32::MAX - 1 {
        PhaseView::Probe((fd + 1) as u32)
    } else {
        PhaseView::Ended(ScanEndView::Aborted(overflow_text()))
    }
}

/// The call that the scan waits on; none once it has ended.
pub open spec fn scan_call(phase: PhaseView) -> Option<Call<u32>> {
    match phase {
        PhaseView::Probe(fd) => Some(Call::FdPrestatGet { fd }),
        PhaseView::ReadName(fd, len) => Some(Call::FdPrestatDirName { fd, len }),
        PhaseView::Rights(fd) => Some(Call::FdFdstatGet { fd }),
        PhaseView::Open(fd, base, inheriting) => Some(
            Call::PathOpen { at: fd, path: ".", oflags: OFLAGS_DIRECTORY, base, inheriting },
        ),
        PhaseView::Ended(_) => None,
    }
}

/// Where the scan stands after the answer to the call it waits on.
pub open spec fn scan_after(goal: GoalView, phase: PhaseView, reply: ReplyView) -> PhaseView {
    match phase {
        PhaseView::Probe(fd) => match reply {
            ReplyView::Prestat(p) => match goal {
                GoalView::ScratchDir(_) => if p.tag != 0 {
                    next_probe(fd)
                } else {
                    PhaseView::ReadName(fd, p.name_len)
                },
                GoalView::NameLength(n) => if p.name_len == n {
                    PhaseView::Ended(ScanEndView::Found(fd))
                } else {
                    next_probe(fd)
                },
                GoalView::Name(_) => PhaseView::ReadName(fd, p.name_len),
            },
            _ => PhaseView::Ended(ScanEndView::Missing),
        },
        PhaseView::ReadName(fd, _) => match reply {
            ReplyView::DirName(bytes) => match goal {
                GoalView::ScratchDir(name) => if bytes == name {
                    PhaseView::Rights(fd)
                } else {
                    next_probe(fd)
                },
                GoalView::Name(name) => if bytes == name {
                    PhaseView::Ended(ScanEndView::Found(fd))
                } else {
                    next_probe(fd)
                },
                GoalView::NameLength(_) => next_probe(fd),
            },
            _ => next_probe(fd),
        },
        PhaseView::Rights(fd) => match reply {
            ReplyView::FdStat(s) => PhaseView::Open(fd, s.rights_base, s.rights_inheriting),
            ReplyView::Error(e) => PhaseView::Ended(
                ScanEndView::Aborted("fd_fdstat_get failed"@ + seq![':', ' '] + e.rendered),
            ),
            _ => phase,
        },
        PhaseView::Open(_, _, _) => match reply {
            ReplyView::Opened(new_fd) => PhaseView::Ended(ScanEndView::Found(new_fd)),
            ReplyView::Error(e) => PhaseView::Ended(
                ScanEndView::Aborted("failed to open dir"@ + seq![':', ' '] + e.rendered),
            ),
            _ => phase,
        },
        PhaseView::Ended(_) => phase,
    }
}

fn bytes_equal(a: &Vec<u8>, b: &Vec<u8>) -> (res: bool)
    ensures
        res == (a@ == b@),
{
    if a.len() != b.len() {
        return false;
    }
    let n = a.len();
    let mut i: usize = 0;
    while i < n
        invariant
            n == a@.len(),
            n == b@.len(),
            i <= n,
            forall|j: int| 0 <= j < i ==> a@[j] == b@[j],
        decreases n - i,
    {
        if a[i] != b[i] {
            return false;
        }
        i = i + 1;
    }
    assert(a@ =~= b@);
    true
}

fn step_past(fd: u32) -> (res: Phase)
    ensures
        res@ == next_probe(fd),
{
    if fd < u32::MAX - 1 {
        Phase::Probe(fd + 1)
    } else {
        Phase::Ended(ScanEnd::Aborted(String::from_str("attempt to add with overflow")))
    }
}

fn abort_with(note: &str, rendered: &str) -> (res: String)
    ensures
        res@ == note@ + seq![':', ' '] + rendered@,
{
    proof {
        reveal_strlit(": ");
        assert(": "@ =~= seq![':', ' ']);
    }
    String::from_str(note).concat(": ").concat(rendered)
}

/// A search through the preopened descriptors.
pub struct Scan {
    goal: Goal,
    phase: Phase,
}

impl Scan {
    /// What the scan looks for.
    pub closed spec fn goal(&self) -> GoalView {
        self.goal@
    }

    /// Where the scan stands.
    pub closed spec fn phase(&self) -> PhaseView {
        self.phase@
    }

    /// A scan for the goal, which starts at descriptor 3.
    pub fn new(goal: Goal) -> (res: Scan)
        ensures
            res.goal() == goal@,
            res.phase() == PhaseView::Probe(3),
    {
        Scan { goal, phase: Phase::Probe(3) }
    }

    /// The call that the scan waits on; none once it has ended.
    pub fn pending(&self) -> (res: Option<Call<u32>>)
        ensures
            res == scan_call(self.phase()),
    {
        match &self.phase {
            Phase::Probe(fd) => Some(Call::FdPrestatGet { fd: *fd }),
            Phase::ReadName(fd, len) => Some(Call::FdPrestatDirName { fd: *fd, len: *len }),
            Phase::Rights(fd) => Some(Call::FdFdstatGet { fd: *fd }),
            Phase::Open(fd, base, inheriting) => Some(
                Call::PathOpen {
                    at: *fd,
                    path: ".",
                    oflags: OFLAGS_DIRECTORY,
                    base: *base,
                    inheriting: *inheriting,
                },
            ),
            Phase::Ended(_) => None,
        }
    }

    /// Takes the answer to the call that the scan waits on.
    pub fn answer(&mut self, reply: Reply)
        requires
            scan_call(old(self).phase()) matches Some(call) && answers(call, reply@),
        ensures
            final(self).goal() == old(self).goal(),
            final(self).phase() == scan_after(old(self).goal(), old(self).phase(), reply@),
    {
        let next = match &self.phase {
            Phase::Probe(fd) => {
                let fd = *fd;
                match reply {
                    Reply::Prestat(p) => match &self.goal {
                        Goal::ScratchDir(_) => if p.tag != 0 {
                            step_past(fd)
                        } else {
                            Phase::ReadName(fd, p.name_len)
                        },
                        Goal::NameLength(n) => if p.name_len == *n {
                            Phase::Ended(ScanEnd::Found(fd))
                        } else {
                            step_past(fd)
                        },
                        Goal::Name(_) => Phase::ReadName(fd, p.name_len),
                    },
                    _ => Phase::Ended(ScanEnd::Missing),
                }
            },
            Phase::ReadName(fd, _) => {
                let fd = *fd;
                match reply {
                    Reply::DirName(bytes) => match &self.goal {
                        Goal::ScratchDir(name) => if bytes_equal(&bytes, name) {
                            Phase::Rights(fd)
                        } else {
                            step_past(fd)
                        },
                        Goal::Name(name) => if bytes_equal(&bytes, name) {
                            Phase::Ended(ScanEnd::Found(fd))
                        } else {
                            step_past(fd)
                        },
                        Goal::NameLength(_) => step_past(fd),
                    },
                    _ => step_past(fd),
                }
            },
            Phase::Rights(fd) => {
                let fd = *fd;
                match reply {
                    Reply::FdStat(s) => Phase::Open(fd, s.rights_base, s.rights_inheriting),
                    Reply::Error(e) => Phase::Ended(
                        ScanEnd::Aborted(abort_with("fd_fdstat_get failed", e.rendered.as_str())),
                    ),
                    _ => Phase::Rights(fd),
                }
            },
            Phase::Open(fd, base, inheriting) => {
                let (fd, base, inheriting) = (*fd, *base, *inheriting);
                match reply {
                    Reply::Opened(new_fd) => Phase::Ended(ScanEnd::Found(new_fd)),
                    Reply::Error(e) => Phase::Ended(
                        ScanEnd::Aborted(abort_with("failed to open dir", e.rendered.as_str())),
                    ),
                    _ => Phase::Open(fd, base, inheriting),
                }
            },
            Phase::Ended(_) => {
                proof {
                    assert(false);
                }
                return;
            },
        };
        self.phase = next;
    }

    /// How the scan ended; none while it waits on a call.
    pub fn into_end(self) -> (res: Option<ScanEnd>)
        ensures
            match self.phase() {
                PhaseView::Ended(end) => (res matches Some(e) && e@ == end),
                _ => res is None,
            },
    {
        match self.phase {
            Phase::Ended(end) => Some(end),
            _ => None,
        }
    }
}

/// What `open_scratch_directory` returns at the end of the scan: the
/// descriptor, or the error message when no preopened directory has the
/// name. Requires that the program did not end during the scan.
pub fn scratch_result(end: ScanEnd) -> (res: Result<u32, String>)
    requires
        !(end is Aborted),
    ensures
        end is Found ==> res == Ok::<u32, String>(end->Found_0),
        end is Missing ==> (res matches Err(m) && m@ == "failed to find scratch dir"@),
{
    match end {
        ScanEnd::Found(fd) => Ok(fd),
        _ => Err(String::from_str("failed to find scratch dir")),
    }
}

/// The verdict of a test that is a scan: it passes when the scan finds its
/// goal, and otherwise reports `missing` on standard error and fails.
pub open spec fn scan_verdict(end: ScanEndView, missing: Seq<char>) -> VerdictView {
    match end {
        ScanEndView::Found(_) => VerdictView::Passed,
        ScanEndView::Missing => VerdictView::Failed(
            NoticeView { to_stderr: true, text: error_text(false, missing) },
        ),
        ScanEndView::Aborted(m) => VerdictView::Aborted(m),
    }
}

/// The verdict of a test that is a scan.
pub fn scan_test_verdict(end: ScanEnd, missing: &'static str) -> (res: Verdict)
    ensures
        res@ == scan_verdict(end@, missing@),
{
    match end {
        ScanEnd::Found(_) => Verdict::Passed,
        ScanEnd::Missing => Verdict::Failed(error_notice(false, String::from_str(missing))),
        ScanEnd::Aborted(m) => Verdict::Aborted(m),
    }
}

} // verus!

verus! {

/// A test that is a scan: what it looks for, and what it reports when
/// nothing matches.
pub struct Search {
    pub goal: Goal,
    pub missing: &'static str,
}

/// The mathematical value of a [`Search`].
pub struct SearchView {
    pub goal: GoalView,
    pub missing: &'static str,
}

impl View for Search {
    type V = SearchView;

    open spec fn view(&self) -> SearchView {
        SearchView { goal: self.goal@, missing: self.missing }
    }
}

/// The bytes of a string, as a vector.
pub fn str_bytes(s: &str) -> (res: Vec<u8>)
    ensures
        res@ == s.spec_bytes(),
{
    let bytes = s.as_bytes();
    let n = bytes.len();
    let mut res: Vec<u8> = Vec::new();
    let mut i: usize = 0;
    while i < n
        invariant
            n == bytes@.len(),
            i <= n,
            res@ == bytes@.subrange(0, i as int),
        decreases n - i,
    {
        res.push(bytes[i]);
        i = i + 1;
        assert(res@ =~= bytes@.subrange(0, i as int));
    }
    assert(bytes@.subrange(0, n as int) =~= bytes@);
    res
}

/// The goal of `open_scratch_directory`: the preopened directory named
/// `path`.
pub fn scratch_goal(path: &str) -> (res: Goal)
    ensures
        res@ == GoalView::ScratchDir(path.spec_bytes()),
{
    Goal::ScratchDir(str_bytes(path))
}

/// The scratch directory's descriptor: the one found, or 4 when none was
/// found (where an engine's `fd_prestat_dir_name` fails, the directory is
/// taken to be at 4).
pub fn scratch_or_fallback(found: Result<u32, String>) -> (res: u32)
    ensures
        found is Ok ==> res == found->Ok_0,
        found is Err ==> res == 4,
{
    match found {
        Ok(fd) => fd,
        Err(_) => 4,
    }
}

} // verus!
