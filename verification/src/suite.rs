//! The test programs as suites: which tests each runs, in which order, how
//! their results combine, and what the program writes and returns.

use vstd::prelude::*;

use crate::console::{
    error_notice, error_text, success_notice, success_text, warning_notice, warning_text, Notice,
    NoticeView,
};
use crate::programs::fd_allocate::{fd_allocate_test, fd_allocate_test_ops};
use crate::programs::fd_fdstat_get::{
    test_directory_stat, test_directory_stat_ops, test_regular_file_stat,
    test_regular_file_stat_ops,
};
use crate::programs::fd_fdstat_set_rights::{
    add_file_rights, add_file_rights_ops, remove_file_rights, remove_file_rights_ops,
};
use crate::programs::fd_filestat_get::{
    test_nlink, test_nlink_ops, test_stdin_stdout_stderr, test_stdin_stdout_stderr_ops,
};
use crate::programs::fd_prestat_dir_name::{test_valid_path, test_zero_one_two, test_zero_one_two_ops};
use crate::programs::fd_prestat_get::{
    test_correct_dir_name_len, test_zero_one_two_fd, test_zero_one_two_fd_ops,
};
use crate::programs::path_create_directory::{
    test_directory_exist, test_directory_exist_ops, test_path_create_directory,
    test_path_create_directory_ops,
};
use crate::programs::path_open::{
    test_fdread_rights, test_fdread_rights_ops, test_file_doesnt_exist, test_file_doesnt_exist_ops,
    test_path_create, test_path_create_ops, test_path_directory, test_path_directory_ops,
    test_path_exists, test_path_exists_ops, test_path_fd_notdir, test_path_fd_notdir_ops,
};
use crate::programs::path_unlink_file::{
    simple_unlink, simple_unlink_ops, unlink_dir, unlink_dir_ops, unlink_multi_links,
    unlink_multi_links_ops,
};
use crate::scan::{Search, SearchView, GoalView};
use crate::script::{Guard, Script, ScriptView};
use vstd::utf8::encode_utf8;

verus! {

/// A test of a suite: a script, or a scan.
pub enum Case {
    Script(Script),
    Search(Search),
}

/// The mathematical value of a [`Case`].
pub enum CaseView {
    Script(ScriptView),
    Search(SearchView),
}

impl View for Case {
    type V = CaseView;

    open spec fn view(&self) -> CaseView {
        match self {
            Case::Script(s) => CaseView::Script(s@),
            Case::Search(s) => CaseView::Search(s@),
        }
    }
}

/// The values of a sequence of cases.
pub open spec fn case_views(cases: Seq<Case>) -> Seq<CaseView> {
    cases.map_values(|c: Case| c@)
}

/// A test program: its name; whether it first looks for its scratch
/// directory; whether its reports come after an empty line; whether it stops
/// at the first failed test; whether it returns an exit status; its tests.
pub struct Suite {
    pub name: &'static str,
    pub locates_scratch: bool,
    pub spaced: bool,
    pub short_circuit: bool,
    pub exit_status: bool,
    pub cases: Vec<Case>,
}

/// A script case, by its steps, for a program whose reports come after an
/// empty line.
pub open spec fn spaced_case(ops: Seq<crate::script::Op>) -> CaseView {
    CaseView::Script(ScriptView { ops, spaced: true, guard: Guard::Plain })
}

/// The suite of a program that works in its scratch directory, runs every
/// test, and returns an exit status.
pub open spec fn scratch_suite(s: Suite, name: &'static str, cases: Seq<CaseView>) -> bool {
    &&& s.name == name
    &&& s.locates_scratch
    &&& s.spaced
    &&& !s.short_circuit
    &&& s.exit_status
    &&& case_views(s.cases@) == cases
}

fn scratch_suite_of(name: &'static str, cases: Vec<Case>) -> (res: Suite)
    ensures
        res.name == name,
        res.locates_scratch,
        res.spaced,
        !res.short_circuit,
        res.exit_status,
        res.cases@ == cases@,
{
    Suite { name, locates_scratch: true, spaced: true, short_circuit: false, exit_status: true, cases }
}

/// The `fd_allocate` program.
pub fn fd_allocate_suite() -> (res: Suite)
    ensures
        scratch_suite(res, "fd_allocate", seq![spaced_case(fd_allocate_test_ops())]),
{
    let res = scratch_suite_of("fd_allocate", vec![Case::Script(fd_allocate_test())]);
    assert(case_views(res.cases@) =~= seq![spaced_case(fd_allocate_test_ops())]);
    res
}

/// The `fd_fdstat_get` program.
pub fn fd_fdstat_get_suite() -> (res: Suite)
    ensures
        scratch_suite(
            res,
            "fd_fdstat_get",
            seq![spaced_case(test_regular_file_stat_ops()), spaced_case(test_directory_stat_ops())],
        ),
{
    let res = scratch_suite_of(
        "fd_fdstat_get",
        vec![Case::Script(test_regular_file_stat()), Case::Script(test_directory_stat())],
    );
    assert(case_views(res.cases@) =~= seq![
        spaced_case(test_regular_file_stat_ops()),
        spaced_case(test_directory_stat_ops()),
    ]);
    res
}

/// The `fd_fdstat_set_rights` program.
pub fn fd_fdstat_set_rights_suite() -> (res: Suite)
    ensures
        scratch_suite(
            res,
            "fd_fdstat_set_rights",
            seq![spaced_case(remove_file_rights_ops()), spaced_case(add_file_rights_ops())],
        ),
{
    let res = scratch_suite_of(
        "fd_fdstat_set_rights",
        vec![Case::Script(remove_file_rights()), Case::Script(add_file_rights())],
    );
    assert(case_views(res.cases@) =~= seq![
        spaced_case(remove_file_rights_ops()),
        spaced_case(add_file_rights_ops()),
    ]);
    res
}

/// The `fd_filestat_get` program.
pub fn fd_filestat_get_suite() -> (res: Suite)
    ensures
        scratch_suite(
            res,
            "fd_filestat_get",
            seq![
                spaced_case(test_nlink_ops()),
                CaseView::Script(ScriptView {
                    ops: test_stdin_stdout_stderr_ops(),
                    spaced: true,
                    guard: Guard::Catch,
                }),
            ],
        ),
{
    let res = scratch_suite_of(
        "fd_filestat_get",
        vec![Case::Script(test_nlink()), Case::Script(test_stdin_stdout_stderr())],
    );
    assert(case_views(res.cases@) =~= seq![
        spaced_case(test_nlink_ops()),
        CaseView::Script(ScriptView {
            ops: test_stdin_stdout_stderr_ops(),
            spaced: true,
            guard: Guard::Catch,
        }),
    ]);
    res
}

/// The `path_create_directory` program.
pub fn path_create_directory_suite() -> (res: Suite)
    ensures
        scratch_suite(
            res,
            "path_create_directory",
            seq![
                spaced_case(test_path_create_directory_ops()),
                spaced_case(test_directory_exist_ops()),
            ],
        ),
{
    let res = scratch_suite_of(
        "path_create_directory",
        vec![Case::Script(test_path_create_directory()), Case::Script(test_directory_exist())],
    );
    assert(case_views(res.cases@) =~= seq![
        spaced_case(test_path_create_directory_ops()),
        spaced_case(test_directory_exist_ops()),
    ]);
    res
}

/// The `path_open` program.
pub fn path_open_suite() -> (res: Suite)
    ensures
        scratch_suite(
            res,
            "path_open",
            seq![
                spaced_case(test_file_doesnt_exist_ops()),
                spaced_case(test_path_create_ops()),
                spaced_case(test_path_exists_ops()),
                spaced_case(test_path_fd_notdir_ops()),
                spaced_case(test_path_directory_ops()),
                spaced_case(test_fdread_rights_ops()),
            ],
        ),
{
    let res = scratch_suite_of(
        "path_open",
        vec![
            Case::Script(test_file_doesnt_exist()),
            Case::Script(test_path_create()),
            Case::Script(test_path_exists()),
            Case::Script(test_path_fd_notdir()),
            Case::Script(test_path_directory()),
            Case::Script(test_fdread_rights()),
        ],
    );
    assert(case_views(res.cases@) =~= seq![
        spaced_case(test_file_doesnt_exist_ops()),
        spaced_case(test_path_create_ops()),
        spaced_case(test_path_exists_ops()),
        spaced_case(test_path_fd_notdir_ops()),
        spaced_case(test_path_directory_ops()),
        spaced_case(test_fdread_rights_ops()),
    ]);
    res
}

/// The `path_unlink_file` program.
pub fn path_unlink_file_suite() -> (res: Suite)
    ensures
        scratch_suite(
            res,
            "path_unlink_file",
            seq![
                spaced_case(simple_unlink_ops()),
                spaced_case(unlink_multi_links_ops()),
                spaced_case(unlink_dir_ops()),
            ],
        ),
{
    let res = scratch_suite_of(
        "path_unlink_file",
        vec![
            Case::Script(simple_unlink()),
            Case::Script(unlink_multi_links()),
            Case::Script(unlink_dir()),
        ],
    );
    assert(case_views(res.cases@) =~= seq![
        spaced_case(simple_unlink_ops()),
        spaced_case(unlink_multi_links_ops()),
        spaced_case(unlink_dir_ops()),
    ]);
    res
}

/// The `fd_prestat_get` program, for the directory named `arg`: it writes
/// its reports without an empty line before them, stops at the first failed
/// test, and returns no exit status.
pub fn fd_prestat_get_suite(arg: String) -> (res: Suite)
    ensures
        res.name == "fd_prestat_get",
        !res.locates_scratch,
        !res.spaced,
        res.short_circuit,
        !res.exit_status,
        case_views(res.cases@) == seq![
            CaseView::Script(ScriptView { ops: test_zero_one_two_fd_ops(), spaced: false, guard: Guard::Plain }),
            CaseView::Search(SearchView {
                goal: GoalView::NameLength(encode_utf8(arg@).len() as usize),
                missing: "couldn't find the directory/file",
            }),
        ],
{
    let cases = vec![Case::Script(test_zero_one_two_fd()), Case::Search(test_correct_dir_name_len(arg))];
    assert(case_views(cases@) =~= seq![cases@[0]@, cases@[1]@]);
    Suite {
        name: "fd_prestat_get",
        locates_scratch: false,
        spaced: false,
        short_circuit: true,
        exit_status: false,
        cases,
    }
}

/// The `fd_prestat_dir_name` program, for the directory named `arg`, which
/// reports as `fd_prestat_get` does.
pub fn fd_prestat_dir_name_suite(arg: String) -> (res: Suite)
    ensures
        res.name == "fd_prestat_dir_name",
        !res.locates_scratch,
        !res.spaced,
        res.short_circuit,
        !res.exit_status,
        case_views(res.cases@) == seq![
            CaseView::Search(SearchView {
                goal: GoalView::Name(encode_utf8(arg@)),
                missing: "failed to find dir",
            }),
            CaseView::Script(ScriptView { ops: test_zero_one_two_ops(), spaced: false, guard: Guard::Plain }),
        ],
{
    let cases = vec![Case::Search(test_valid_path(arg)), Case::Script(test_zero_one_two())];
    assert(case_views(cases@) =~= seq![cases@[0]@, cases@[1]@]);
    Suite {
        name: "fd_prestat_dir_name",
        locates_scratch: false,
        spaced: false,
        short_circuit: true,
        exit_status: false,
        cases,
    }
}

} // verus!

verus! {

/// Whether a suite that has these results, of its `total` tests, is over:
/// every test has run, or, for a suite that stops at the first failure, one
/// has failed.
pub open spec fn suite_over(short_circuit: bool, total: nat, results: Seq<u8>) -> bool {
    ||| results.len() >= total
    ||| short_circuit && exists|i: int| 0 <= i < results.len() && results[i] != 0
}

/// Whether every test that ran passed.
pub open spec fn all_passed(results: Seq<u8>) -> bool {
    forall|i: int| 0 <= i < results.len() ==> results[i] == 0
}

/// The announcement with which a program begins.
pub open spec fn banner_text(spaced: bool, name: &'static str) -> Seq<char> {
    warning_text(spaced, "Testing "@ + name@ + " ..."@)
}

/// The report with which a program ends, and its exit status, if it
/// returns one: 0 when every test that ran passed, 1 otherwise.
pub open spec fn closing_of(
    spaced: bool,
    exit_status: bool,
    name: &'static str,
    results: Seq<u8>,
) -> (NoticeView, Option<u8>) {
    if all_passed(results) {
        (
            NoticeView { to_stderr: false, text: success_text(name@ + " tests passed \u{2713}"@) },
            if exit_status { Some(0u8) } else { None },
        )
    } else {
        (
            NoticeView { to_stderr: true, text: error_text(spaced, name@ + " tests failed \u{2717}"@) },
            if exit_status { Some(1u8) } else { None },
        )
    }
}

/// A program in progress: the results of the tests that have run.
pub struct Session {
    name: &'static str,
    spaced: bool,
    short_circuit: bool,
    exit_status: bool,
    total: usize,
    results: Vec<u8>,
    any_failed: bool,
}

impl Session {
    /// The program's name.
    pub closed spec fn name(&self) -> &'static str {
        self.name
    }

    /// Whether it stops at the first failed test.
    pub closed spec fn short_circuit(&self) -> bool {
        self.short_circuit
    }

    /// The number of its tests.
    pub closed spec fn total(&self) -> nat {
        self.total as nat
    }

    /// The results of the tests that have run, in order.
    pub closed spec fn results(&self) -> Seq<u8> {
        self.results@
    }

    /// Whether its reports come after an empty line.
    pub closed spec fn spaced(&self) -> bool {
        self.spaced
    }

    /// Whether it returns an exit status.
    pub closed spec fn exit_status(&self) -> bool {
        self.exit_status
    }

    /// Whether some test that ran failed, as recorded.
    pub closed spec fn well_formed(&self) -> bool {
        self.any_failed == exists|i: int| 0 <= i < self.results@.len() && self.results@[i] != 0
    }

    /// A program that runs the suite's tests, none of which has run yet.
    pub fn new(suite: &Suite) -> (res: Session)
        ensures
            res.well_formed(),
            res.name() == suite.name,
            res.spaced() == suite.spaced,
            res.short_circuit() == suite.short_circuit,
            res.exit_status() == suite.exit_status,
            res.total() == suite.cases@.len(),
            res.results() == Seq::<u8>::empty(),
    {
        Session {
            name: suite.name,
            spaced: suite.spaced,
            short_circuit: suite.short_circuit,
            exit_status: suite.exit_status,
            total: suite.cases.len(),
            results: Vec::new(),
            any_failed: false,
        }
    }

    /// The announcement with which the program begins.
    pub fn banner(&self) -> (res: Notice)
        ensures
            res@ == (NoticeView { to_stderr: false, text: banner_text(self.spaced(), self.name()) }),
    {
        let text = String::from_str("Testing ").concat(self.name).concat(" ...");
        warning_notice(self.spaced, text)
    }

    /// The position of the test to run next; none once the program is over.
    pub fn next_case(&self) -> (res: Option<usize>)
        requires
            self.well_formed(),
        ensures
            suite_over(self.short_circuit(), self.total(), self.results()) ==> res is None,
            !suite_over(self.short_circuit(), self.total(), self.results()) ==> res
                == Some(self.results().len() as usize),
    {
        if self.results.len() >= self.total || (self.short_circuit && self.any_failed) {
            None
        } else {
            Some(self.results.len())
        }
    }

    /// Records the result of the test that ran: 0 when it passed.
    pub fn record(&mut self, code: u8)
        requires
            old(self).well_formed(),
            !suite_over(old(self).short_circuit(), old(self).total(), old(self).results()),
        ensures
            final(self).well_formed(),
            final(self).results() == old(self).results().push(code),
            final(self).name() == old(self).name(),
            final(self).spaced() == old(self).spaced(),
            final(self).short_circuit() == old(self).short_circuit(),
            final(self).exit_status() == old(self).exit_status(),
            final(self).total() == old(self).total(),
    {
        let ghost before = self.results@;
        self.results.push(code);
        if code != 0 {
            self.any_failed = true;
            assert(self.results@[before.len() as int] != 0);
        } else {
            assert forall|i: int| 0 <= i < self.results@.len() && self.results@[i] != 0 implies 0
                <= i < before.len() && before[i] != 0 by {
                assert(i != before.len());
                assert(self.results@[i] == before[i]);
            }
            assert forall|i: int| 0 <= i < before.len() && before[i] != 0 implies 0 <= i
                < self.results@.len() && self.results@[i] != 0 by {
                assert(self.results@[i] == before[i]);
            }
        }
    }

    /// The report with which the program ends, and its exit status, if it
    /// returns one.
    pub fn closing(&self) -> (res: (Notice, Option<u8>))
        requires
            self.well_formed(),
        ensures
            (res.0@, res.1) == closing_of(
                self.spaced(),
                self.exit_status(),
                self.name(),
                self.results(),
            ),
    {
        if !self.any_failed {
            let text = String::from_str(self.name).concat(" tests passed \u{2713}");
            let status = if self.exit_status { Some(0) } else { None };
            (success_notice(text), status)
        } else {
            let text = String::from_str(self.name).concat(" tests failed \u{2717}");
            let status = if self.exit_status { Some(1) } else { None };
            (error_notice(self.spaced, text), status)
        }
    }
}

} // verus!
