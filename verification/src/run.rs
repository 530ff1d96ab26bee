//! [`Run`]: a test in progress, driven by the answers to its calls.

use vstd::prelude::*;

use crate::abi::{Call, Reply, ReplyView};
use crate::console::error_notice;
use crate::decimal::decimal_string;
use crate::script::{
    after, assert_text, conclude, examine, filetype_name, field_value, judge, message_text,
    resolve, settle, slot_fd, start, waiting, Check, Expect, Fault, FaultView, Field, Guard,
    Message, Op, RunView, Script, ScriptView, Slot, Verdict, VerdictView,
};

verus! {

/// The mathematical value of an optional answer.
pub open spec fn reply_opt(o: Option<Reply>) -> Option<ReplyView> {
    match o {
        Some(r) => Some(r@),
        None => None,
    }
}

/// The mathematical value of an optional fault.
pub open spec fn fault_opt(o: Option<Fault>) -> Option<FaultView> {
    match o {
        Some(f) => Some(f@),
        None => None,
    }
}

/// The mathematical value of an optional verdict.
pub open spec fn verdict_opt(o: Option<Verdict>) -> Option<VerdictView> {
    match o {
        Some(v) => Some(v@),
        None => None,
    }
}

fn message_string(m: Message, name: &str, rendered: &str, number: u64) -> (res: String)
    ensures
        res@ == message_text(m, name@, rendered@, number as nat),
{
    match m {
        Message::Plain(s) => String::from_str(s),
        Message::Named(before, after) => String::from_str(before).concat(name).concat(after),
        Message::Rendered(before, after) => String::from_str(before).concat(rendered).concat(
            after,
        ),
        Message::Counted(before, after) => {
            let digits = decimal_string(number);
            String::from_str(before).concat(digits.as_str()).concat(after)
        },
    }
}

fn judge_reply(expect: Expect, reply: &Reply) -> (res: Option<Fault>)
    ensures
        fault_opt(res) == judge(expect, reply@),
{
    proof {
        reveal_strlit(": ");
        reveal_strlit("");
        assert(": "@ =~= seq![':', ' ']);
        assert(""@ =~= Seq::<char>::empty());
    }
    match expect {
        Expect::Must(note) => match reply {
            Reply::Error(e) => Some(
                Fault::Abort(String::from_str(note).concat(": ").concat(e.rendered.as_str())),
            ),
            _ => None,
        },
        Expect::Succeed(m) => match reply {
            Reply::Error(e) => Some(
                Fault::Fail(message_string(m, e.name.as_str(), e.rendered.as_str(), 0)),
            ),
            _ => None,
        },
        Expect::Refuse { code, if_ok, if_other } => match reply {
            Reply::Error(e) => if e.code == code {
                None
            } else {
                Some(Fault::Fail(message_string(if_other, e.name.as_str(), e.rendered.as_str(), 0)))
            },
            _ => Some(Fault::Fail(message_string(if_ok, "", "", 0))),
        },
    }
}

fn field_of(field: Field, last: &Option<Reply>) -> (res: u64)
    ensures
        res == field_value(field, reply_opt(*last)),
{
    match last {
        Some(Reply::FileStat(s)) => match field {
            Field::Size => s.size,
            Field::Nlink => s.nlink,
            Field::Atim => s.atim,
            Field::Mtim => s.mtim,
            Field::Ctim => s.ctim,
            _ => 0,
        },
        Some(Reply::FdStat(s)) => match field {
            Field::Flags => s.flags as u64,
            Field::RightsBase => s.rights_base,
            Field::RightsInheriting => s.rights_inheriting,
            _ => 0,
        },
        _ => 0,
    }
}

fn filetype_of(last: &Option<Reply>) -> (res: String)
    ensures
        res@ == filetype_name(reply_opt(*last)),
{
    match last {
        Some(Reply::FdStat(s)) => s.filetype_name.clone(),
        _ => String::new(),
    }
}

fn assert_string(equal: bool, note: &str, left: u64, right: u64) -> (res: String)
    ensures
        res@ == assert_text(equal, note@, left as nat, right as nat),
{
    let head = if equal {
        String::from_str("assertion `left == right` failed: ")
    } else {
        String::from_str("assertion `left != right` failed: ")
    };
    let left_digits = decimal_string(left);
    let right_digits = decimal_string(right);
    head.concat(note).concat("\n  left: ").concat(left_digits.as_str()).concat(
        "\n right: ",
    ).concat(right_digits.as_str())
}

fn examine_last(check: Check, last: &Option<Reply>) -> (res: Option<Fault>)
    ensures
        fault_opt(res) == examine(check, reply_opt(*last)),
{
    proof {
        reveal_strlit("");
    }
    match check {
        Check::Assert { field, mask, equal, value, value_first, note } => {
            let actual = field_of(field, last) & mask;
            if (actual == value) == equal {
                None
            } else if value_first {
                Some(Fault::Abort(assert_string(equal, note, value, actual)))
            } else {
                Some(Fault::Abort(assert_string(equal, note, actual, value)))
            }
        },
        Check::Require { field, mask, equal, value, message } => {
            let actual = field_of(field, last) & mask;
            if (actual == value) == equal {
                None
            } else {
                Some(Fault::Fail(message_string(message, "", "", actual)))
            }
        },
        Check::FileType { name, message } => {
            let found = filetype_of(last);
            if found == String::from_str(name) {
                None
            } else {
                Some(Fault::Fail(message_string(message, found.as_str(), "", 0)))
            }
        },
    }
}

fn conclude_with(spaced: bool, guard: Guard, fault: Option<Fault>) -> (res: Verdict)
    ensures
        res@ == conclude(spaced, guard, fault_opt(fault)),
{
    match fault {
        None => Verdict::Passed,
        Some(Fault::Fail(m)) => Verdict::Failed(error_notice(spaced, m)),
        Some(Fault::Abort(m)) => match guard {
            Guard::Plain => Verdict::Aborted(m),
            Guard::Catch => Verdict::Failed(error_notice(spaced, m)),
        },
    }
}

fn slot_number(slot: Slot, scratch: u32, opened: &Vec<Option<u32>>) -> (res: u32)
    ensures
        res == slot_fd(slot, scratch, opened@),
{
    match slot {
        Slot::Scratch => scratch,
        Slot::Fixed(fd) => fd,
        Slot::Opened(k) => if k < opened.len() {
            match opened[k] {
                Some(fd) => fd,
                None => u32::MAX,
            }
        } else {
            u32::MAX
        },
    }
}

fn resolve_call(call: Call<Slot>, scratch: u32, opened: &Vec<Option<u32>>) -> (res: Call<u32>)
    ensures
        res == resolve(call, scratch, opened@),
{
    match call {
        Call::PathOpen { at, path, oflags, base, inheriting } => Call::PathOpen {
            at: slot_number(at, scratch, opened),
            path,
            oflags,
            base,
            inheriting,
        },
        Call::PathCreateDirectory { at, path } => Call::PathCreateDirectory {
            at: slot_number(at, scratch, opened),
            path,
        },
        Call::PathRemoveDirectory { at, path } => Call::PathRemoveDirectory {
            at: slot_number(at, scratch, opened),
            path,
        },
        Call::PathUnlinkFile { at, path } => Call::PathUnlinkFile {
            at: slot_number(at, scratch, opened),
            path,
        },
        Call::PathLink { from, from_path, to, to_path } => Call::PathLink {
            from: slot_number(from, scratch, opened),
            from_path,
            to: slot_number(to, scratch, opened),
            to_path,
        },
        Call::FdFilestatGet { fd } => Call::FdFilestatGet { fd: slot_number(fd, scratch, opened) },
        Call::FdFdstatGet { fd } => Call::FdFdstatGet { fd: slot_number(fd, scratch, opened) },
        Call::FdFdstatSetRights { fd, base, inheriting } => Call::FdFdstatSetRights {
            fd: slot_number(fd, scratch, opened),
            base,
            inheriting,
        },
        Call::FdAllocate { fd, offset, len } => Call::FdAllocate {
            fd: slot_number(fd, scratch, opened),
            offset,
            len,
        },
        Call::FdRead { fd, len } => Call::FdRead { fd: slot_number(fd, scratch, opened), len },
        Call::FdPrestatGet { fd } => Call::FdPrestatGet { fd: slot_number(fd, scratch, opened) },
        Call::FdPrestatDirName { fd, len } => Call::FdPrestatDirName {
            fd: slot_number(fd, scratch, opened),
            len,
        },
    }
}

/// A test in progress: the script, the scratch directory's descriptor, and
/// where the run stands.
pub struct Run {
    script: Script,
    scratch: u32,
    pc: usize,
    opened: Vec<Option<u32>>,
    last: Option<Reply>,
    verdict: Option<Verdict>,
}

impl View for Run {
    type V = RunView;

    closed spec fn view(&self) -> RunView {
        RunView {
            pc: self.pc as nat,
            opened: self.opened@,
            last: reply_opt(self.last),
            verdict: verdict_opt(self.verdict),
        }
    }
}

impl Run {
    /// The script that the run follows.
    pub closed spec fn script(&self) -> ScriptView {
        self.script@
    }

    /// The descriptor of the scratch directory.
    pub closed spec fn scratch(&self) -> u32 {
        self.scratch
    }

    /// The run waits on a call unless it has ended.
    pub closed spec fn well_formed(&self) -> bool {
        &&& self.opened@.len() == self.script.ops@.len()
        &&& self.pc <= self.script.ops@.len()
        &&& self.verdict is None ==> self.pc < self.script.ops@.len()
            && self.script.ops@[self.pc as int] is Call
    }

    fn settle_here(&mut self)
        requires
            old(self).opened@.len() == old(self).script.ops@.len(),
            old(self).pc <= old(self).script.ops@.len(),
        ensures
            final(self).well_formed(),
            final(self).script == old(self).script,
            final(self).scratch == old(self).scratch,
            final(self)@ == settle(old(self).script@, old(self)@),
    {
        let ghost target = settle(self.script@, self@);
        let n = self.script.ops.len();
        loop
            invariant_except_break
                self.opened@.len() == self.script.ops@.len(),
                self.pc <= n,
                n == self.script.ops@.len(),
                self.script == old(self).script,
                self.scratch == old(self).scratch,
                settle(self.script@, self@) == target,
            ensures
                self.well_formed(),
                self.script == old(self).script,
                self.scratch == old(self).scratch,
                self@ == target,
            decreases n - self.pc,
        {
            if self.verdict.is_some() {
                break;
            }
            if self.pc >= n {
                let v = conclude_with(self.script.spaced, self.script.guard, None);
                self.verdict = Some(v);
                break;
            }
            let op = self.script.ops[self.pc];
            match op {
                Op::Call(_, _) => {
                    break;
                },
                Op::Check(c) => {
                    let fault = examine_last(c, &self.last);
                    match fault {
                        None => {
                            self.pc = self.pc + 1;
                        },
                        Some(f) => {
                            let v = conclude_with(self.script.spaced, self.script.guard, Some(f));
                            self.verdict = Some(v);
                            break;
                        },
                    }
                },
            }
        }
    }

    /// A run of the script in the scratch directory `scratch`, up to its
    /// first call.
    pub fn new(script: Script, scratch: u32) -> (run: Run)
        ensures
            run.well_formed(),
            run.script() == script@,
            run.scratch() == scratch,
            run@ == start(script@),
    {
        let n = script.ops.len();
        let mut opened: Vec<Option<u32>> = Vec::new();
        let mut i: usize = 0;
        while i < n
            invariant
                i <= n,
                opened@ == Seq::new(i as nat, |j: int| None::<u32>),
            decreases n - i,
        {
            opened.push(None);
            i = i + 1;
        }
        let mut run = Run { script, scratch, pc: 0, opened, last: None, verdict: None };
        assert(run@ == RunView {
            pc: 0,
            opened: Seq::new(run.script@.ops.len(), |i: int| None),
            last: None,
            verdict: None,
        });
        run.settle_here();
        run
    }

    /// The call that the run waits on; none once it has ended.
    pub fn pending(&self) -> (res: Option<Call<u32>>)
        requires
            self.well_formed(),
        ensures
            res == waiting(self.script(), self.scratch(), self@),
            res is None <==> self@.verdict is Some,
    {
        if self.verdict.is_some() {
            None
        } else {
            match self.script.ops[self.pc] {
                Op::Call(call, _) => Some(resolve_call(call, self.scratch, &self.opened)),
                Op::Check(_) => None,
            }
        }
    }

    /// Takes the answer to the call that the run waits on, and runs on to
    /// the next call or to the end.
    pub fn answer(&mut self, reply: Reply)
        requires
            old(self).well_formed(),
            old(self)@.verdict is None,
        ensures
            final(self).well_formed(),
            final(self).script() == old(self).script(),
            final(self).scratch() == old(self).scratch(),
            final(self)@ == after(old(self).script(), old(self)@, reply@),
    {
        let _n = self.script.ops.len();
        let op = self.script.ops[self.pc];
        match op {
            Op::Call(_, expect) => {
                let fault = judge_reply(expect, &reply);
                match fault {
                    Some(f) => {
                        let v = conclude_with(self.script.spaced, self.script.guard, Some(f));
                        self.verdict = Some(v);
                    },
                    None => {
                        if let Reply::Opened(fd) = reply {
                            self.opened.set(self.pc, Some(fd));
                        }
                        self.pc = self.pc + 1;
                        self.last = Some(reply);
                        self.settle_here();
                    },
                }
            },
            Op::Check(_) => {},
        }
    }

    /// How the run ended; none while it waits on a call.
    pub fn into_verdict(self) -> (res: Option<Verdict>)
        ensures
            verdict_opt(res) == self@.verdict,
    {
        self.verdict
    }
}

} // verus!
