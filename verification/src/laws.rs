//! What holds of every run of a test and every scan.

use vstd::prelude::*;

use crate::abi::{Call, ReplyView};
use crate::console::{error_text, NoticeView};
use crate::scan::{scan_after, scan_verdict, GoalView, PhaseView, ScanEndView, SearchView};
use crate::suite::suite_over;
use crate::script::{
    after, conclude, examine, judge, resolve, result_code, settle, start, waiting, FaultView, Guard,
    Op, RunView, ScriptView, Slot, VerdictView,
};

verus! {

/// Where a run stands after the answers, taken while it waits on calls;
/// answers that come after it has ended are not read.
pub open spec fn replay(s: ScriptView, st: RunView, replies: Seq<ReplyView>) -> RunView
    decreases replies.len(),
{
    if replies.len() == 0 || st.verdict is Some || st.pc >= s.ops.len() || !(s.ops[st.pc as int] is Call) {
        st
    } else {
        replay(s, after(s, st, replies[0]), replies.drop_first())
    }
}

/// Whether the answers, read in order from step `pc` on with `last` as the
/// last answer, meet the expectation of every call and every check, up to
/// the end of the script.
pub open spec fn conforms(s: ScriptView, pc: nat, last: Option<ReplyView>, replies: Seq<ReplyView>) -> bool
    decreases replies.len(), s.ops.len() - pc,
{
    if pc >= s.ops.len() {
        true
    } else {
        match s.ops[pc as int] {
            Op::Call(_, e) => {
                &&& replies.len() > 0
                &&& judge(e, replies[0]) is None
                &&& conforms(s, pc + 1, Some(replies[0]), replies.drop_first())
            },
            Op::Check(c) => examine(c, last) is None && conforms(s, pc + 1, last, replies),
        }
    }
}

proof fn lemma_conclude_distinct(spaced: bool, guard: Guard, f: FaultView)
    ensures
        conclude(spaced, guard, None) != conclude(spaced, guard, Some(f)),
{
}

proof fn lemma_replay_ended(s: ScriptView, st: RunView, replies: Seq<ReplyView>)
    requires
        st.verdict is Some,
    ensures
        replay(s, st, replies) == st,
    decreases replies.len(),
{
}

proof fn lemma_settled_conforms(s: ScriptView, st: RunView, replies: Seq<ReplyView>)
    requires
        st.verdict is None,
        st.pc <= s.ops.len(),
    ensures
        (replay(s, settle(s, st), replies).verdict == Some(conclude(s.spaced, s.guard, None)))
            <==> conforms(s, st.pc, st.last, replies),
    decreases replies.len(), s.ops.len() - st.pc,
{
    let done = conclude(s.spaced, s.guard, None);
    if st.pc >= s.ops.len() {
        lemma_replay_ended(s, settle(s, st), replies);
    } else {
        match s.ops[st.pc as int] {
            Op::Check(c) => match examine(c, st.last) {
                None => {
                    lemma_settled_conforms(s, RunView { pc: st.pc + 1, ..st }, replies);
                },
                Some(f) => {
                    lemma_conclude_distinct(s.spaced, s.guard, f);
                    lemma_replay_ended(s, settle(s, st), replies);
                },
            },
            Op::Call(_, e) => {
                assert(settle(s, st) == st);
                if replies.len() > 0 {
                    match judge(e, replies[0]) {
                        Some(f) => {
                            lemma_conclude_distinct(s.spaced, s.guard, f);
                            lemma_replay_ended(s, after(s, st, replies[0]), replies.drop_first());
                        },
                        None => {
                            let r = replies[0];
                            let next = RunView {
                                pc: st.pc + 1,
                                opened: match r {
                                    ReplyView::Opened(fd) => st.opened.update(st.pc as int, Some(fd)),
                                    _ => st.opened,
                                },
                                last: Some(r),
                                verdict: None,
                            };
                            lemma_settled_conforms(s, next, replies.drop_first());
                        },
                    }
                }
            },
        }
    }
}

/// A test passes exactly when the answers it reads meet the expectation of
/// each of its calls, in order, and every check on them holds.
pub proof fn lemma_run_completes_iff_conforms(s: ScriptView, replies: Seq<ReplyView>)
    ensures
        (replay(s, start(s), replies).verdict == Some(VerdictView::Passed)) <==> conforms(
            s,
            0,
            None,
            replies,
        ),
{
    lemma_settled_conforms(
        s,
        RunView { pc: 0, opened: Seq::new(s.ops.len(), |i: int| None), last: None, verdict: None },
        replies,
    );
}

/// The positions of the calls among the steps from `pc` on, in order.
pub open spec fn call_steps(ops: Seq<Op>, pc: nat) -> Seq<nat>
    decreases ops.len() - pc,
{
    if pc >= ops.len() {
        Seq::empty()
    } else {
        match ops[pc as int] {
            Op::Call(_, _) => seq![pc] + call_steps(ops, pc + 1),
            Op::Check(_) => call_steps(ops, pc + 1),
        }
    }
}

/// The call that the step at `k` makes.
pub open spec fn step_call(ops: Seq<Op>, k: nat) -> Call<Slot> {
    ops[k as int]->Call_0
}

/// The table of what each `path_open` gave back, after the answers to the
/// calls at `steps`, in order: an answer that is a descriptor is written at
/// the position of its call.
pub open spec fn recorded(base: Seq<Option<u32>>, steps: Seq<nat>, replies: Seq<ReplyView>) -> Seq<Option<u32>>
    decreases replies.len(),
{
    if replies.len() == 0 || steps.len() == 0 {
        base
    } else {
        let next = match replies[0] {
            ReplyView::Opened(fd) => base.update(steps[0] as int, Some(fd)),
            _ => base,
        };
        recorded(next, steps.drop_first(), replies.drop_first())
    }
}

/// The calls that a run makes from `st` on, given the answers in order: it
/// makes the call it waits on, takes the next answer, and goes on until it
/// has ended or no answer is left.
pub open spec fn issued(s: ScriptView, scratch: u32, st: RunView, replies: Seq<ReplyView>) -> Seq<Call<u32>>
    decreases replies.len(),
{
    match waiting(s, scratch, st) {
        None => Seq::empty(),
        Some(c) => if replies.len() == 0 {
            seq![c]
        } else {
            seq![c] + issued(s, scratch, after(s, st, replies[0]), replies.drop_first())
        },
    }
}

proof fn lemma_issued_settled(s: ScriptView, scratch: u32, st: RunView, replies: Seq<ReplyView>)
    requires
        st.verdict is None,
        st.pc <= s.ops.len(),
    ensures
        ({
            let calls = issued(s, scratch, settle(s, st), replies);
            let steps = call_steps(s.ops, st.pc);
            &&& calls.len() <= steps.len()
            &&& calls.len() <= replies.len() + 1
            &&& forall|i: int|
                0 <= i < calls.len() ==> #[trigger] calls[i] == resolve(
                    step_call(s.ops, steps[i]),
                    scratch,
                    recorded(st.opened, steps, replies.take(i)),
                )
        }),
    decreases replies.len(), s.ops.len() - st.pc,
{
    if st.pc >= s.ops.len() {
    } else {
        match s.ops[st.pc as int] {
            Op::Check(c) => match examine(c, st.last) {
                None => {
                    lemma_issued_settled(s, scratch, RunView { pc: st.pc + 1, ..st }, replies);
                },
                Some(f) => {},
            },
            Op::Call(call, e) => {
                assert(settle(s, st) == st);
                let steps = call_steps(s.ops, st.pc);
                let rest_steps = call_steps(s.ops, st.pc + 1);
                assert(steps == seq![st.pc] + rest_steps);
                assert(steps[0] == st.pc);
                assert(steps.drop_first() =~= rest_steps);
                assert(recorded(st.opened, steps, replies.take(0)) == st.opened);
                if replies.len() > 0 {
                    let r = replies[0];
                    match judge(e, r) {
                        Some(f) => {
                            assert(issued(s, scratch, after(s, st, r), replies.drop_first()) =~= Seq::<Call<u32>>::empty());
                        },
                        None => {
                            let next = RunView {
                                pc: st.pc + 1,
                                opened: match r {
                                    ReplyView::Opened(fd) => st.opened.update(st.pc as int, Some(fd)),
                                    _ => st.opened,
                                },
                                last: Some(r),
                                verdict: None,
                            };
                            let rest = replies.drop_first();
                            lemma_issued_settled(s, scratch, next, rest);
                            let calls = issued(s, scratch, settle(s, st), replies);
                            let later = issued(s, scratch, settle(s, next), rest);
                            assert(calls == seq![resolve(call, scratch, st.opened)] + later);
                            assert forall|i: int| 0 <= i < calls.len() implies #[trigger] calls[i] == resolve(
                                step_call(s.ops, steps[i]),
                                scratch,
                                recorded(st.opened, steps, replies.take(i)),
                            ) by {
                                if i > 0 {
                                    assert(calls[i] == later[i - 1]);
                                    assert(steps[i] == rest_steps[i - 1]);
                                    assert(replies.take(i).drop_first() =~= rest.take(i - 1));
                                    assert(replies.take(i)[0] == r);
                                }
                            }
                        },
                    }
                }
            },
        }
    }
}

/// A run makes the calls of its script, in order and each once, with its
/// descriptors named as the script says: the run's calls, given any
/// answers (also those of a run cut short by a failure), are the first
/// calls of the script, where a descriptor that a `path_open` gave back is
/// named by the answer that the `path_open` got; and it makes at most one
/// call more than it has answers.
pub proof fn lemma_run_issues_script_calls(s: ScriptView, scratch: u32, replies: Seq<ReplyView>)
    ensures
        ({
            let calls = issued(s, scratch, start(s), replies);
            let steps = call_steps(s.ops, 0);
            &&& calls.len() <= steps.len()
            &&& calls.len() <= replies.len() + 1
            &&& forall|i: int|
                0 <= i < calls.len() ==> #[trigger] calls[i] == resolve(
                    step_call(s.ops, steps[i]),
                    scratch,
                    recorded(Seq::new(s.ops.len(), |k: int| None), steps, replies.take(i)),
                )
        }),
{
    lemma_issued_settled(
        s,
        scratch,
        RunView { pc: 0, opened: Seq::new(s.ops.len(), |k: int| None), last: None, verdict: None },
        replies,
    );
}

/// The descriptor that a scan is at; none once it has ended.
pub open spec fn phase_fd(phase: PhaseView) -> Option<u32> {
    match phase {
        PhaseView::Probe(fd) => Some(fd),
        PhaseView::ReadName(fd, _) => Some(fd),
        PhaseView::Rights(fd) => Some(fd),
        PhaseView::Open(fd, _, _) => Some(fd),
        PhaseView::Ended(_) => None,
    }
}

/// A scan moves through the descriptors one by one, upward, and never asks
/// about `u32::MAX`: from a descriptor below `u32::MAX` it either stays at
/// it or goes on to the next one, which is again below `u32::MAX`.
pub proof fn lemma_scan_ascends(goal: GoalView, phase: PhaseView, reply: ReplyView)
    requires
        phase_fd(phase) matches Some(fd) && fd < u32::MAX,
    ensures
        phase_fd(scan_after(goal, phase, reply)) matches Some(next) ==> (
            next < u32::MAX && (next == phase_fd(phase)->0 || next == phase_fd(phase)->0 + 1)),
{
}

/// A scan reports a find only where the answer matches its goal: a name of
/// the length looked for, the name looked for, or the descriptor that
/// opening the directory gave back (which the scan does only for the
/// scratch directory, after its name matched).
pub proof fn lemma_scan_finds_only_matches(
    goal: GoalView,
    phase: PhaseView,
    reply: ReplyView,
    found: u32,
)
    requires
        !(phase is Ended),
        scan_after(goal, phase, reply) == PhaseView::Ended(ScanEndView::Found(found)),
    ensures
        (phase is Open && reply == ReplyView::Opened(found)) || match goal {
            GoalView::NameLength(n) => phase == PhaseView::Probe(found) && (reply matches ReplyView::Prestat(p)
                && p.name_len == n),
            GoalView::Name(name) => (phase matches PhaseView::ReadName(fd, _) && fd == found) && reply
                == ReplyView::DirName(name),
            GoalView::ScratchDir(_) => false,
        },
{
}

/// A scan for the scratch directory asks for a descriptor's rights only
/// after the descriptor's name matched, and opens the directory only with
/// the rights that it was then given.
pub proof fn lemma_scratch_opens_only_named(goal: GoalView, phase: PhaseView, reply: ReplyView)
    requires
        goal is ScratchDir,
    ensures
        scan_after(goal, phase, reply) matches PhaseView::Rights(fd) ==> (phase
            matches PhaseView::ReadName(at, _) && at == fd && reply == ReplyView::DirName(
            goal->ScratchDir_0,
        )) || phase == PhaseView::Rights(fd),
        scan_after(goal, phase, reply) matches PhaseView::Open(fd, base, inheriting) ==> (phase
            == PhaseView::Rights(fd) && (reply matches ReplyView::FdStat(st) && st.rights_base
            == base && st.rights_inheriting == inheriting)) || phase == PhaseView::Open(
            fd,
            base,
            inheriting,
        ),
{
}

/// Whether each result was recorded while the program was not yet over.
pub open spec fn recorded_in_turn(short_circuit: bool, total: nat, results: Seq<u8>) -> bool {
    forall|k: int| 0 <= k < results.len() ==> !suite_over(short_circuit, total, #[trigger] results.take(k))
}

/// A program runs at most its tests, and one that stops at the first failed
/// test runs none after it: every result but the last is a pass.
pub proof fn lemma_session_stops_at_first_failure(short_circuit: bool, total: nat, results: Seq<u8>)
    requires
        recorded_in_turn(short_circuit, total, results),
    ensures
        results.len() <= total,
        short_circuit ==> forall|i: int| 0 <= i < results.len() - 1 ==> results[i] == 0,
{
    if results.len() > 0 {
        let k = results.len() - 1;
        let prefix = results.take(k);
        assert(!suite_over(short_circuit, total, prefix));
        if short_circuit {
            assert forall|i: int| 0 <= i < results.len() - 1 implies results[i] == 0 by {
                assert(prefix[i] == results[i]);
            }
        }
    }
}

/// What a host answers at one descriptor: to `fd_prestat_get`, and to
/// `fd_prestat_dir_name`, where the scan asks it.
pub struct Preopen {
    pub prestat: ReplyView,
    pub name: ReplyView,
}

/// The answers that a scan for the goal reads at one descriptor: the name is
/// read after a `prestat` (for the scratch directory, only after one with
/// tag 0).
pub open spec fn visit(goal: GoalView, at: Preopen) -> Seq<ReplyView> {
    match goal {
        GoalView::NameLength(_) => seq![at.prestat],
        GoalView::Name(_) => if at.prestat is Prestat {
            seq![at.prestat, at.name]
        } else {
            seq![at.prestat]
        },
        GoalView::ScratchDir(_) => if (at.prestat matches ReplyView::Prestat(p) && p.tag == 0) {
            seq![at.prestat, at.name]
        } else {
            seq![at.prestat]
        },
    }
}

/// The answers that a scan reads at the descriptors 3, 4, ... in turn.
pub open spec fn host_replies(goal: GoalView, hosts: Seq<Preopen>) -> Seq<ReplyView>
    decreases hosts.len(),
{
    if hosts.len() == 0 {
        Seq::empty()
    } else {
        host_replies(goal, hosts.drop_last()) + visit(goal, hosts.last())
    }
}

/// Whether `fd_prestat_get` fails at the descriptor, which ends the listing.
pub open spec fn listing_ends(at: Preopen) -> bool {
    !(at.prestat is Prestat)
}

/// Whether the descriptor is what the goal looks for: a name of the length
/// looked for; the name looked for; a preopened directory (tag 0) of the
/// name looked for.
pub open spec fn goal_matches(goal: GoalView, at: Preopen) -> bool {
    match goal {
        GoalView::NameLength(n) => at.prestat matches ReplyView::Prestat(p) && p.name_len == n,
        GoalView::Name(name) => at.prestat is Prestat && at.name == ReplyView::DirName(name),
        GoalView::ScratchDir(name) => (at.prestat matches ReplyView::Prestat(p) && p.tag == 0)
            && at.name == ReplyView::DirName(name),
    }
}

/// Where a scan stands after the answers, taken while it waits on calls.
pub open spec fn scan_replay(goal: GoalView, phase: PhaseView, replies: Seq<ReplyView>) -> PhaseView
    decreases replies.len(),
{
    if replies.len() == 0 || phase is Ended {
        phase
    } else {
        scan_replay(goal, scan_after(goal, phase, replies[0]), replies.drop_first())
    }
}

proof fn lemma_scan_replay_concat(
    goal: GoalView,
    phase: PhaseView,
    a: Seq<ReplyView>,
    b: Seq<ReplyView>,
)
    ensures
        scan_replay(goal, phase, a + b) == scan_replay(goal, scan_replay(goal, phase, a), b),
    decreases a.len(),
{
    if a.len() == 0 {
        assert(a + b =~= b);
    } else if phase is Ended {
    } else {
        assert((a + b)[0] == a[0]);
        assert((a + b).drop_first() =~= a.drop_first() + b);
        lemma_scan_replay_concat(goal, scan_after(goal, phase, a[0]), a.drop_first(), b);
    }
}

proof fn lemma_visit(goal: GoalView, fd: u32, at: Preopen)
    ensures
        scan_replay(goal, PhaseView::Probe(fd), visit(goal, at)) == (if listing_ends(at) {
            PhaseView::Ended(ScanEndView::Missing)
        } else if goal_matches(goal, at) {
            if goal is ScratchDir {
                PhaseView::Rights(fd)
            } else {
                PhaseView::Ended(ScanEndView::Found(fd))
            }
        } else {
            crate::scan::next_probe(fd)
        }),
{
    reveal_with_fuel(scan_replay, 3);
    let v = visit(goal, at);
    if v.len() == 2 {
        assert(v.drop_first()[0] == at.name);
        assert(v.drop_first().drop_first() =~= Seq::<ReplyView>::empty());
    } else {
        assert(v.drop_first() =~= Seq::<ReplyView>::empty());
    }
}

proof fn lemma_scan_reaches(goal: GoalView, hosts: Seq<Preopen>, k: nat)
    requires
        k <= hosts.len(),
        3 + k < u32::MAX,
        forall|j: int| 0 <= j < k ==> !listing_ends(#[trigger] hosts[j]) && !goal_matches(goal, hosts[j]),
    ensures
        scan_replay(goal, PhaseView::Probe(3), host_replies(goal, hosts.take(k as int)))
            == PhaseView::Probe((3 + k) as u32),
    decreases k,
{
    if k == 0 {
        assert(hosts.take(0).len() == 0);
    } else {
        let before = hosts.take(k - 1);
        assert(hosts.take(k as int).drop_last() =~= before);
        assert(hosts.take(k as int).last() == hosts[k - 1]);
        lemma_scan_reaches(goal, hosts, (k - 1) as nat);
        lemma_scan_replay_concat(
            goal,
            PhaseView::Probe(3),
            host_replies(goal, before),
            visit(goal, hosts[k - 1]),
        );
        lemma_visit(goal, (3 + k - 1) as u32, hosts[k - 1]);
    }
}

/// A scan finds what it looks for at the first descriptor that has it, and
/// ends in a miss when the listing ends first: if at the descriptors 3 up to
/// `3 + k - 1` the listing goes on and nothing matches, the scan then asks
/// about `3 + k`; when that descriptor matches it is found there (the scratch
/// directory is then asked for its rights, and found at the descriptor that
/// opening it gives back), and when `fd_prestat_get` fails there the scan
/// ends in a miss.
pub proof fn lemma_scan_complete(
    goal: GoalView,
    hosts: Seq<Preopen>,
    k: nat,
    rights: crate::abi::FdStatView,
    opened: u32,
)
    requires
        k < hosts.len(),
        3 + k < u32::MAX,
        forall|j: int| 0 <= j < k ==> !listing_ends(#[trigger] hosts[j]) && !goal_matches(goal, hosts[j]),
    ensures
        scan_replay(goal, PhaseView::Probe(3), host_replies(goal, hosts.take(k as int)))
            == PhaseView::Probe((3 + k) as u32),
        listing_ends(hosts[k as int]) ==> scan_replay(
            goal,
            PhaseView::Probe(3),
            host_replies(goal, hosts.take((k + 1) as int)),
        ) == PhaseView::Ended(ScanEndView::Missing),
        goal_matches(goal, hosts[k as int]) && !(goal is ScratchDir) ==> scan_replay(
            goal,
            PhaseView::Probe(3),
            host_replies(goal, hosts.take((k + 1) as int)),
        ) == PhaseView::Ended(ScanEndView::Found((3 + k) as u32)),
        goal_matches(goal, hosts[k as int]) && goal is ScratchDir ==> scan_replay(
            goal,
            PhaseView::Probe(3),
            host_replies(goal, hosts.take((k + 1) as int)) + seq![
                ReplyView::FdStat(rights),
                ReplyView::Opened(opened),
            ],
        ) == PhaseView::Ended(ScanEndView::Found(opened)),
{
    lemma_scan_reaches(goal, hosts, k);
    let before = host_replies(goal, hosts.take(k as int));
    assert(hosts.take((k + 1) as int).drop_last() =~= hosts.take(k as int));
    assert(hosts.take((k + 1) as int).last() == hosts[k as int]);
    let here = visit(goal, hosts[k as int]);
    assert(host_replies(goal, hosts.take((k + 1) as int)) == before + here);
    lemma_scan_replay_concat(goal, PhaseView::Probe(3), before, here);
    lemma_visit(goal, (3 + k) as u32, hosts[k as int]);
    let tail = seq![ReplyView::FdStat(rights), ReplyView::Opened(opened)];
    lemma_scan_replay_concat(goal, PhaseView::Probe(3), before + here, tail);
    reveal_with_fuel(scan_replay, 3);
    assert(tail.drop_first()[0] == ReplyView::Opened(opened));
    assert(tail.drop_first().drop_first() =~= Seq::<ReplyView>::empty());
}

proof fn lemma_host_replies_split(goal: GoalView, hosts: Seq<Preopen>, a: int, b: int)
    requires
        0 <= a <= b <= hosts.len(),
    ensures
        host_replies(goal, hosts.take(b)) == host_replies(goal, hosts.take(a)) + host_replies(
            goal,
            hosts.subrange(a, b),
        ),
    decreases b - a,
{
    if a == b {
        assert(hosts.subrange(a, b).len() == 0);
        assert(host_replies(goal, hosts.take(a)) + Seq::<ReplyView>::empty() =~= host_replies(
            goal,
            hosts.take(a),
        ));
    } else {
        lemma_host_replies_split(goal, hosts, a, b - 1);
        assert(hosts.take(b).drop_last() =~= hosts.take(b - 1));
        assert(hosts.take(b).last() == hosts[b - 1]);
        assert(hosts.subrange(a, b).drop_last() =~= hosts.subrange(a, b - 1));
        assert(hosts.subrange(a, b).last() == hosts[b - 1]);
        assert(host_replies(goal, hosts.take(a)) + (host_replies(goal, hosts.subrange(a, b - 1))
            + visit(goal, hosts[b - 1])) =~= (host_replies(goal, hosts.take(a)) + host_replies(
            goal,
            hosts.subrange(a, b - 1),
        )) + visit(goal, hosts[b - 1]));
    }
}

/// Whether the listing goes on at the descriptors 3 up to `3 + m - 1` and
/// ends at `3 + m`: `fd_prestat_get` succeeds there and fails at `3 + m`.
pub open spec fn listing_of(hosts: Seq<Preopen>, m: nat) -> bool {
    &&& m < hosts.len()
    &&& forall|j: int| 0 <= j < m ==> !listing_ends(#[trigger] hosts[j])
    &&& listing_ends(hosts[m as int])
}

/// Whether one of the descriptors 3 up to `3 + m - 1` is what the goal
/// looks for.
pub open spec fn some_match(goal: GoalView, hosts: Seq<Preopen>, m: nat) -> bool {
    exists|j: int| 0 <= j < m && goal_matches(goal, #[trigger] hosts[j])
}

proof fn lemma_search_from(goal: GoalView, hosts: Seq<Preopen>, m: nat, k: nat)
    requires
        !(goal is ScratchDir),
        listing_of(hosts, m),
        3 + m < u32::MAX,
        k <= m,
        forall|j: int| 0 <= j < k ==> !goal_matches(goal, #[trigger] hosts[j]),
    ensures
        ({
            let r = scan_replay(goal, PhaseView::Probe(3), host_replies(goal, hosts.take(m + 1int)));
            &&& r is Ended
            &&& (r->Ended_0 is Found <==> exists|j: int| k <= j < m && goal_matches(goal, #[trigger] hosts[j]))
            &&& !(r->Ended_0 is Found) ==> r->Ended_0 is Missing
        }),
    decreases m - k,
{
    let rights = crate::abi::FdStatView { filetype_name: Seq::empty(), flags: 0, rights_base: 0, rights_inheriting: 0 };
    if k == m {
        lemma_scan_complete(goal, hosts, k, rights, 0);
    } else if goal_matches(goal, hosts[k as int]) {
        lemma_scan_complete(goal, hosts, k, rights, 0);
        lemma_host_replies_split(goal, hosts, k + 1int, m + 1int);
        let head = host_replies(goal, hosts.take(k + 1int));
        let tail = host_replies(goal, hosts.subrange(k + 1int, m + 1int));
        lemma_scan_replay_concat(goal, PhaseView::Probe(3), head, tail);
        let found = PhaseView::Ended(ScanEndView::Found((3 + k) as u32));
        if tail.len() > 0 {
            assert(scan_replay(goal, found, tail) == found);
        }
        assert(goal_matches(goal, hosts[k as int]));
    } else {
        lemma_search_from(goal, hosts, m, k + 1);
        if exists|j: int| k <= j < m && goal_matches(goal, #[trigger] hosts[j]) {
            let j = choose|j: int| k <= j < m && goal_matches(goal, #[trigger] hosts[j]);
            assert(j != k);
            assert(k + 1 <= j < m && goal_matches(goal, hosts[j]));
        }
    }
}

/// A search by name or by name length decides on the whole listing: over a
/// host whose listing goes on at the descriptors 3 up to `3 + m - 1` and
/// ends at `3 + m`, the scan ends, it finds a descriptor exactly when one of
/// them is what it looks for, and otherwise it ends in a miss; so the test
/// passes (0) exactly then, and otherwise reports `missing` on standard
/// error and fails (1).
pub proof fn lemma_search_decides(goal: GoalView, hosts: Seq<Preopen>, m: nat, missing: Seq<char>)
    requires
        !(goal is ScratchDir),
        listing_of(hosts, m),
        3 + m < u32::MAX,
    ensures
        ({
            let r = scan_replay(goal, PhaseView::Probe(3), host_replies(goal, hosts.take(m + 1int)));
            &&& r is Ended
            &&& (r->Ended_0 is Found <==> some_match(goal, hosts, m))
            &&& !some_match(goal, hosts, m) ==> r->Ended_0 == ScanEndView::Missing
            &&& result_code(scan_verdict(r->Ended_0, missing)) == if some_match(goal, hosts, m) {
                Some(0u8)
            } else {
                Some(1u8)
            }
            &&& !some_match(goal, hosts, m) ==> scan_verdict(r->Ended_0, missing)
                == VerdictView::Failed(NoticeView { to_stderr: true, text: error_text(false, missing) })
        }),
{
    lemma_search_from(goal, hosts, m, 0);
    if some_match(goal, hosts, m) {
        let j = choose|j: int| 0 <= j < m && goal_matches(goal, #[trigger] hosts[j]);
        assert(0 <= j < m && goal_matches(goal, hosts[j]));
    }
}

/// The search of `test_valid_path` for the directory name `path`.
pub open spec fn valid_path_search(path: Seq<char>) -> SearchView {
    SearchView { goal: GoalView::Name(vstd::utf8::encode_utf8(path)), missing: "failed to find dir" }
}

/// The search of `test_correct_dir_name_len` for the directory name `arg`.
pub open spec fn dir_name_len_search(arg: Seq<char>) -> SearchView {
    SearchView {
        goal: GoalView::NameLength(vstd::utf8::encode_utf8(arg).len() as usize),
        missing: "couldn't find the directory/file",
    }
}

/// The test that some preopened directory has the name of the directory
/// given to the program (`path`) passes exactly when, over the listing, the
/// name that `fd_prestat_dir_name` gives for one of the descriptors is the
/// bytes of `path`, neither more nor fewer; otherwise it reports "failed to
/// find dir" and fails.
pub proof fn lemma_valid_path_search(path: Seq<char>, hosts: Seq<Preopen>, m: nat)
    requires
        listing_of(hosts, m),
        3 + m < u32::MAX,
    ensures
        ({
            let search = valid_path_search(path);
            let goal = search.goal;
            let r = scan_replay(goal, PhaseView::Probe(3), host_replies(goal, hosts.take(m + 1int)));
            let named = exists|j: int|
                0 <= j < m && #[trigger] hosts[j].name == ReplyView::DirName(vstd::utf8::encode_utf8(path));
            &&& r is Ended
            &&& result_code(scan_verdict(r->Ended_0, search.missing@)) == if named {
                Some(0u8)
            } else {
                Some(1u8)
            }
            &&& !named ==> scan_verdict(r->Ended_0, search.missing@) == VerdictView::Failed(
                NoticeView { to_stderr: true, text: error_text(false, "failed to find dir"@) },
            )
        }),
{
    let goal = GoalView::Name(vstd::utf8::encode_utf8(path));
    lemma_search_decides(goal, hosts, m, valid_path_search(path).missing@);
    let named = exists|j: int|
        0 <= j < m && #[trigger] hosts[j].name == ReplyView::DirName(vstd::utf8::encode_utf8(path));
    if named {
        let j = choose|j: int|
            0 <= j < m && #[trigger] hosts[j].name == ReplyView::DirName(vstd::utf8::encode_utf8(path));
        assert(!listing_ends(hosts[j]));
        assert(goal_matches(goal, hosts[j]));
    }
    if some_match(goal, hosts, m) {
        let j = choose|j: int| 0 <= j < m && goal_matches(goal, #[trigger] hosts[j]);
        assert(hosts[j].name == ReplyView::DirName(vstd::utf8::encode_utf8(path)));
    }
}

/// The test that some preopened directory's name has the byte length of the
/// directory name given to the program (`arg`) passes exactly when, over the
/// listing, `fd_prestat_get` reports that length for one of the
/// descriptors (names are not compared); otherwise it reports "couldn't find
/// the directory/file" and fails. Only `fd_prestat_get` is asked, at each
/// descriptor once.
pub proof fn lemma_dir_name_len_search(arg: Seq<char>, hosts: Seq<Preopen>, m: nat)
    requires
        listing_of(hosts, m),
        3 + m < u32::MAX,
        vstd::utf8::encode_utf8(arg).len() <= usize::MAX,
    ensures
        ({
            let n = vstd::utf8::encode_utf8(arg).len() as usize;
            let search = dir_name_len_search(arg);
            let goal = search.goal;
            let r = scan_replay(goal, PhaseView::Probe(3), host_replies(goal, hosts.take(m + 1int)));
            let sized = exists|j: int|
                0 <= j < m && (#[trigger] hosts[j].prestat matches ReplyView::Prestat(p) && p.name_len == n);
            &&& r is Ended
            &&& result_code(scan_verdict(r->Ended_0, search.missing@)) == if sized {
                Some(0u8)
            } else {
                Some(1u8)
            }
            &&& !sized ==> scan_verdict(r->Ended_0, search.missing@)
                == VerdictView::Failed(
                NoticeView { to_stderr: true, text: error_text(false, "couldn't find the directory/file"@) },
            )
            &&& host_replies(goal, hosts.take(m + 1int)) == hosts.take(m + 1int).map_values(|at: Preopen| at.prestat)
        }),
{
    let n = vstd::utf8::encode_utf8(arg).len() as usize;
    let goal = GoalView::NameLength(n);
    lemma_search_decides(goal, hosts, m, dir_name_len_search(arg).missing@);
    lemma_length_search_reads_prestats(n, hosts.take(m + 1int));
    let sized = exists|j: int|
        0 <= j < m && (#[trigger] hosts[j].prestat matches ReplyView::Prestat(p) && p.name_len == n);
    if sized {
        let j = choose|j: int|
            0 <= j < m && (#[trigger] hosts[j].prestat matches ReplyView::Prestat(p) && p.name_len == n);
        assert(goal_matches(goal, hosts[j]));
    }
    if some_match(goal, hosts, m) {
        let j = choose|j: int| 0 <= j < m && goal_matches(goal, #[trigger] hosts[j]);
        assert(hosts[j].prestat matches ReplyView::Prestat(p) && p.name_len == n);
    }
}

proof fn lemma_length_search_reads_prestats(n: usize, hosts: Seq<Preopen>)
    ensures
        host_replies(GoalView::NameLength(n), hosts) == hosts.map_values(|at: Preopen| at.prestat),
    decreases hosts.len(),
{
    if hosts.len() > 0 {
        lemma_length_search_reads_prestats(n, hosts.drop_last());
        assert(hosts.map_values(|at: Preopen| at.prestat) =~= hosts.drop_last().map_values(
            |at: Preopen| at.prestat,
        ).push(hosts.last().prestat));
    } else {
        assert(hosts.map_values(|at: Preopen| at.prestat) =~= Seq::<ReplyView>::empty());
    }
}

} // verus!
