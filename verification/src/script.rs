//! Test scripts: the WASI calls that a test makes, what it expects of each
//! answer, and the checks it makes on the values it gets; and [`Run`], the
//! machine that decides, answer by answer, what the test does next and how
//! it ends.

use vstd::prelude::*;

use crate::abi::{Call, ReplyView};
use crate::console::{error_text, Notice, NoticeView};
use crate::decimal::decimal;

verus! {

/// A descriptor as a script names it.
#[derive(Clone, Copy, Debug, PartialEq, Eq)]
pub enum Slot {
    /// The scratch directory that the test works in.
    Scratch,
    /// A fixed descriptor number.
    Fixed(u32),
    /// The descriptor that the `path_open` at this position of the script
    /// gave back.
    Opened(usize),
}

/// The text of a report. Where an error, a file type or a count is named,
/// it stands between the two parts.
#[derive(Clone, Copy)]
pub enum Message {
    Plain(&'static str),
    /// Around the name of the error, or of the file type.
    Named(&'static str, &'static str),
    /// Around the error rendered with `{:?}`.
    Rendered(&'static str, &'static str),
    /// Around the value that was checked, in decimal.
    Counted(&'static str, &'static str),
}

/// What a test expects of the answer to a call.
#[derive(Clone, Copy)]
pub enum Expect {
    /// Success; an error ends the program as `.expect(note)` does.
    Must(&'static str),
    /// Success; an error is reported with the message and fails the test.
    Succeed(Message),
    /// The error `code`; success is reported with `if_ok`, another error
    /// with `if_other`, and either fails the test.
    Refuse { code: u16, if_ok: Message, if_other: Message },
}

/// A field of the last `filestat` or `fdstat` received.
#[derive(Clone, Copy)]
pub enum Field {
    Size,
    Nlink,
    Atim,
    Mtim,
    Ctim,
    Flags,
    RightsBase,
    RightsInheriting,
}

/// A check on the value that the last successful call gave back.
#[derive(Clone, Copy)]
pub enum Check {
    /// `assert_eq!` (`equal`) or `assert_ne!` of the field, masked, against
    /// `value`, written first when `value_first`; a violation ends the
    /// program.
    Assert { field: Field, mask: u64, equal: bool, value: u64, value_first: bool, note: &'static str },
    /// The field, masked, must equal `value` (or differ from it, when not
    /// `equal`); a violation is reported with the message and fails the test.
    Require { field: Field, mask: u64, equal: bool, value: u64, message: Message },
    /// The file type must have this name; otherwise it is reported with the
    /// message and fails the test.
    FileType { name: &'static str, message: Message },
}

/// One step of a script.
#[derive(Clone, Copy)]
pub enum Op {
    Call(Call<Slot>, Expect),
    Check(Check),
}

/// How the end of a test is taken.
#[derive(Clone, Copy)]
pub enum Guard {
    /// As it comes.
    Plain,
    /// The test runs under `catch_unwind`: a step that would end the program
    /// instead reports its message on standard error and fails the test, so
    /// that the test passes only when it runs to its end.
    Catch,
}

/// A test: its steps; whether its error reports come after an empty line;
/// how its end is taken.
pub struct Script {
    pub ops: Vec<Op>,
    pub spaced: bool,
    pub guard: Guard,
}

/// The mathematical value of a [`Script`].
pub struct ScriptView {
    pub ops: Seq<Op>,
    pub spaced: bool,
    pub guard: Guard,
}

impl View for Script {
    type V = ScriptView;

    open spec fn view(&self) -> ScriptView {
        ScriptView { ops: self.ops@, spaced: self.spaced, guard: self.guard }
    }
}

/// Why a test stops before its end.
pub enum Fault {
    /// It reports the message and fails.
    Fail(String),
    /// The program ends with the message.
    Abort(String),
}

/// The mathematical value of a [`Fault`].
pub enum FaultView {
    Fail(Seq<char>),
    Abort(Seq<char>),
}

impl View for Fault {
    type V = FaultView;

    open spec fn view(&self) -> FaultView {
        match self {
            Fault::Fail(m) => FaultView::Fail(m@),
            Fault::Abort(m) => FaultView::Abort(m@),
        }
    }
}

/// How a test ended.
#[derive(Debug)]
pub enum Verdict {
    /// It passed: its result is 0.
    Passed,
    /// It wrote the notice and failed: its result is 1.
    Failed(Notice),
    /// The program ends with the message.
    Aborted(String),
}

/// The mathematical value of a [`Verdict`].
pub enum VerdictView {
    Passed,
    Failed(NoticeView),
    Aborted(Seq<char>),
}

impl View for Verdict {
    type V = VerdictView;

    open spec fn view(&self) -> VerdictView {
        match self {
            Verdict::Passed => VerdictView::Passed,
            Verdict::Failed(n) => VerdictView::Failed(n@),
            Verdict::Aborted(m) => VerdictView::Aborted(m@),
        }
    }
}

/// The result that a test returns: 0 or 1, and none when the program ends.
pub open spec fn result_code(v: VerdictView) -> Option<u8> {
    match v {
        VerdictView::Passed => Some(0u8),
        VerdictView::Failed(_) => Some(1u8),
        VerdictView::Aborted(_) => None,
    }
}

impl Verdict {
    /// The result that the test returns: 0 or 1, and none when the program
    /// ends.
    pub fn code(&self) -> (res: Option<u8>)
        ensures
            res == result_code(self@),
    {
        match self {
            Verdict::Passed => Some(0),
            Verdict::Failed(_) => Some(1),
            Verdict::Aborted(_) => None,
        }
    }
}

/// The text of a message, given the error's name and rendering, or the
/// file type's name, or the value checked.
pub open spec fn message_text(m: Message, name: Seq<char>, rendered: Seq<char>, number: nat) -> Seq<char> {
    match m {
        Message::Plain(s) => s@,
        Message::Named(before, after) => before@ + name + after@,
        Message::Rendered(before, after) => before@ + rendered + after@,
        Message::Counted(before, after) => before@ + decimal(number) + after@,
    }
}

/// What a test makes of the answer to a call: nothing when the answer is as
/// expected.
pub open spec fn judge(expect: Expect, reply: ReplyView) -> Option<FaultView> {
    match expect {
        Expect::Must(note) => match reply {
            ReplyView::Error(e) => Some(FaultView::Abort(note@ + seq![':', ' '] + e.rendered)),
            _ => None,
        },
        Expect::Succeed(m) => match reply {
            ReplyView::Error(e) => Some(FaultView::Fail(message_text(m, e.name, e.rendered, 0))),
            _ => None,
        },
        Expect::Refuse { code, if_ok, if_other } => match reply {
            ReplyView::Error(e) => if e.code == code {
                None
            } else {
                Some(FaultView::Fail(message_text(if_other, e.name, e.rendered, 0)))
            },
            _ => Some(FaultView::Fail(message_text(if_ok, seq![], seq![], 0))),
        },
    }
}

/// The field's value in the last answer; 0 where that answer has no such
/// field.
pub open spec fn field_value(field: Field, last: Option<ReplyView>) -> u64 {
    match last {
        Some(ReplyView::FileStat(s)) => match field {
            Field::Size => s.size,
            Field::Nlink => s.nlink,
            Field::Atim => s.atim,
            Field::Mtim => s.mtim,
            Field::Ctim => s.ctim,
            _ => 0,
        },
        Some(ReplyView::FdStat(s)) => match field {
            Field::Flags => s.flags as u64,
            Field::RightsBase => s.rights_base,
            Field::RightsInheriting => s.rights_inheriting,
            _ => 0,
        },
        _ => 0,
    }
}

/// The file type's name in the last answer; empty where it has none.
pub open spec fn filetype_name(last: Option<ReplyView>) -> Seq<char> {
    match last {
        Some(ReplyView::FdStat(s)) => s.filetype_name,
        _ => seq![],
    }
}

/// The message with which a failed `assert_eq!` (`equal`) or `assert_ne!`
/// ends the program.
pub open spec fn assert_text(equal: bool, note: Seq<char>, left: nat, right: nat) -> Seq<char> {
    (if equal {
        "assertion `left == right` failed: "@
    } else {
        "assertion `left != right` failed: "@
    }) + note + "\n  left: "@ + decimal(left) + "\n right: "@ + decimal(right)
}

/// What a check makes of the last answer: nothing when it holds.
pub open spec fn examine(check: Check, last: Option<ReplyView>) -> Option<FaultView> {
    match check {
        Check::Assert { field, mask, equal, value, value_first, note } => {
            let actual = field_value(field, last) & mask;
            if (actual == value) == equal {
                None
            } else if value_first {
                Some(FaultView::Abort(assert_text(equal, note@, value as nat, actual as nat)))
            } else {
                Some(FaultView::Abort(assert_text(equal, note@, actual as nat, value as nat)))
            }
        },
        Check::Require { field, mask, equal, value, message } => {
            let actual = field_value(field, last) & mask;
            if (actual == value) == equal {
                None
            } else {
                Some(FaultView::Fail(message_text(message, seq![], seq![], actual as nat)))
            }
        },
        Check::FileType { name, message } => if filetype_name(last) == name@ {
            None
        } else {
            Some(FaultView::Fail(message_text(message, filetype_name(last), seq![], 0)))
        },
    }
}

/// How a test ends: it passes after its last step (no fault); a failure is
/// reported on standard error; a step that would end the program ends it,
/// unless the test catches that, and then it is reported as a failure.
pub open spec fn conclude(spaced: bool, guard: Guard, fault: Option<FaultView>) -> VerdictView {
    match fault {
        None => VerdictView::Passed,
        Some(FaultView::Fail(m)) => VerdictView::Failed(
            NoticeView { to_stderr: true, text: error_text(spaced, m) },
        ),
        Some(FaultView::Abort(m)) => match guard {
            Guard::Plain => VerdictView::Aborted(m),
            Guard::Catch => VerdictView::Failed(
                NoticeView { to_stderr: true, text: error_text(spaced, m) },
            ),
        },
    }
}

/// The descriptor number that a slot names: the scratch directory, the
/// fixed number, or what the `path_open` at that position gave back
/// (`u32::MAX` where it gave nothing).
pub open spec fn slot_fd(slot: Slot, scratch: u32, opened: Seq<Option<u32>>) -> u32 {
    match slot {
        Slot::Scratch => scratch,
        Slot::Fixed(fd) => fd,
        Slot::Opened(k) => if k < opened.len() && opened[k as int] is Some {
            opened[k as int]->0
        } else {
            u32::MAX
        },
    }
}

/// The call with its descriptors named by number.
pub open spec fn resolve(call: Call<Slot>, scratch: u32, opened: Seq<Option<u32>>) -> Call<u32> {
    match call {
        Call::PathOpen { at, path, oflags, base, inheriting } => Call::PathOpen {
            at: slot_fd(at, scratch, opened),
            path,
            oflags,
            base,
            inheriting,
        },
        Call::PathCreateDirectory { at, path } => Call::PathCreateDirectory {
            at: slot_fd(at, scratch, opened),
            path,
        },
        Call::PathRemoveDirectory { at, path } => Call::PathRemoveDirectory {
            at: slot_fd(at, scratch, opened),
            path,
        },
        Call::PathUnlinkFile { at, path } => Call::PathUnlinkFile {
            at: slot_fd(at, scratch, opened),
            path,
        },
        Call::PathLink { from, from_path, to, to_path } => Call::PathLink {
            from: slot_fd(from, scratch, opened),
            from_path,
            to: slot_fd(to, scratch, opened),
            to_path,
        },
        Call::FdFilestatGet { fd } => Call::FdFilestatGet { fd: slot_fd(fd, scratch, opened) },
        Call::FdFdstatGet { fd } => Call::FdFdstatGet { fd: slot_fd(fd, scratch, opened) },
        Call::FdFdstatSetRights { fd, base, inheriting } => Call::FdFdstatSetRights {
            fd: slot_fd(fd, scratch, opened),
            base,
            inheriting,
        },
        Call::FdAllocate { fd, offset, len } => Call::FdAllocate {
            fd: slot_fd(fd, scratch, opened),
            offset,
            len,
        },
        Call::FdRead { fd, len } => Call::FdRead { fd: slot_fd(fd, scratch, opened), len },
        Call::FdPrestatGet { fd } => Call::FdPrestatGet { fd: slot_fd(fd, scratch, opened) },
        Call::FdPrestatDirName { fd, len } => Call::FdPrestatDirName {
            fd: slot_fd(fd, scratch, opened),
            len,
        },
    }
}

/// Where a run stands: the step it is at, what each `path_open` gave back,
/// the last answer, and how it ended, once it has.
pub struct RunView {
    pub pc: nat,
    pub opened: Seq<Option<u32>>,
    pub last: Option<ReplyView>,
    pub verdict: Option<VerdictView>,
}

/// The run from `st` on, through the checks, up to the next call, the end
/// of the script, or a fault.
pub open spec fn settle(s: ScriptView, st: RunView) -> RunView
    decreases s.ops.len() - st.pc,
{
    if st.verdict is Some {
        st
    } else if st.pc >= s.ops.len() {
        RunView { verdict: Some(conclude(s.spaced, s.guard, None)), ..st }
    } else {
        match s.ops[st.pc as int] {
            Op::Call(_, _) => st,
            Op::Check(c) => match examine(c, st.last) {
                None => settle(s, RunView { pc: st.pc + 1, ..st }),
                Some(f) => RunView { verdict: Some(conclude(s.spaced, s.guard, Some(f))), ..st },
            },
        }
    }
}

/// Where a run of the script stands before any answer.
pub open spec fn start(s: ScriptView) -> RunView {
    settle(
        s,
        RunView { pc: 0, opened: Seq::new(s.ops.len(), |i: int| None), last: None, verdict: None },
    )
}

/// The call that the run waits on: none once it has ended.
pub open spec fn waiting(s: ScriptView, scratch: u32, st: RunView) -> Option<Call<u32>> {
    if st.verdict is None && st.pc < s.ops.len() {
        match s.ops[st.pc as int] {
            Op::Call(call, _) => Some(resolve(call, scratch, st.opened)),
            Op::Check(_) => None,
        }
    } else {
        None
    }
}

/// Where the run stands after the answer to the call it waits on.
pub open spec fn after(s: ScriptView, st: RunView, reply: ReplyView) -> RunView {
    match s.ops[st.pc as int] {
        Op::Call(_, expect) => match judge(expect, reply) {
            Some(f) => RunView { verdict: Some(conclude(s.spaced, s.guard, Some(f))), ..st },
            None => settle(
                s,
                RunView {
                    pc: st.pc + 1,
                    opened: match reply {
                        ReplyView::Opened(fd) => st.opened.update(st.pc as int, Some(fd)),
                        _ => st.opened,
                    },
                    last: Some(reply),
                    verdict: None,
                },
            ),
        },
        Op::Check(_) => st,
    }
}

} // verus!

verus! {

/// A call that must succeed, as `.expect(note)` demands.
#[verifier::allow_in_spec]
pub fn must(call: Call<Slot>, note: &'static str) -> Op
    returns
        Op::Call(call, Expect::Must(note)),
{
    Op::Call(call, Expect::Must(note))
}

/// A call whose error is reported with the message and fails the test.
#[verifier::allow_in_spec]
pub fn succeed(call: Call<Slot>, message: Message) -> Op
    returns
        Op::Call(call, Expect::Succeed(message)),
{
    Op::Call(call, Expect::Succeed(message))
}

/// A call that must fail with the error `code`.
#[verifier::allow_in_spec]
pub fn refuse(call: Call<Slot>, code: u16, if_ok: Message, if_other: Message) -> Op
    returns
        Op::Call(call, Expect::Refuse { code, if_ok, if_other }),
{
    Op::Call(call, Expect::Refuse { code, if_ok, if_other })
}

/// `assert_eq!` of the field and `value`, in that order unless `value_first`.
#[verifier::allow_in_spec]
pub fn assert_field(field: Field, value: u64, value_first: bool, note: &'static str) -> Op
    returns
        Op::Check(Check::Assert { field, mask: u64::MAX, equal: true, value, value_first, note }),
{
    Op::Check(Check::Assert { field, mask: u64::MAX, equal: true, value, value_first, note })
}

/// `assert_ne!(field & mask, 0, note)` when `set`, `assert_eq!(field & mask,
/// 0, note)` otherwise.
#[verifier::allow_in_spec]
pub fn assert_bits(field: Field, mask: u64, set: bool, note: &'static str) -> Op
    returns
        Op::Check(
            Check::Assert { field, mask, equal: !set, value: 0, value_first: false, note },
        ),
{
    Op::Check(Check::Assert { field, mask, equal: !set, value: 0, value_first: false, note })
}

} // verus!
