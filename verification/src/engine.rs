//! The host side: which engine runs the test programs, how it is invoked,
//! which programs `init` runs, and the tally of their results.

use vstd::prelude::*;

use crate::console::{colored, green_start, red_start, Notice, NoticeView};
use crate::decimal::{decimal, decimal_string};

verus! {

/// The engine named on the command line: the first argument after the
/// program's own name.
pub fn engine_from_args(args: &Vec<String>) -> (res: Option<String>)
    ensures
        args@.len() >= 2 ==> (res matches Some(e) && e@ == args@[1]@),
        args@.len() < 2 ==> res is None,
{
    if args.len() >= 2 {
        Some(args[1].clone())
    } else {
        None
    }
}

/// Where the build puts the wasm module `module_name` of the crate at
/// `crate_path`.
pub fn wasm_modules_path(crate_path: &str, module_name: &str) -> (res: String)
    ensures
        res@ == crate_path@ + "/target/wasm32-wasi/debug/"@ + module_name@,
{
    String::from_str(crate_path).concat("/target/wasm32-wasi/debug/").concat(module_name)
}

/// The views of a sequence of string slices.
pub open spec fn str_views(items: Seq<&str>) -> Seq<Seq<char>> {
    items.map_values(|s: &str| s@)
}

/// The arguments with which the engine runs a module: `run` first for
/// `wasmer`, then the engine's parameters, the module's path, and the
/// module's parameters.
pub open spec fn engine_args_of(
    engine: Seq<char>,
    engine_params: Seq<&str>,
    module_file: Seq<char>,
    module_params: Seq<&str>,
) -> Seq<Seq<char>> {
    (if engine == "wasmer"@ {
        seq!["run"@]
    } else {
        Seq::empty()
    }) + str_views(engine_params) + seq![module_file] + str_views(module_params)
}

fn push_all(args: &mut Vec<String>, items: &Vec<&str>)
    ensures
        final(args)@.map_values(|s: String| s@) == old(args)@.map_values(|s: String| s@) + str_views(
            items@,
        ),
{
    let ghost start = args@.map_values(|s: String| s@);
    let n = items.len();
    let mut i: usize = 0;
    while i < n
        invariant
            n == items@.len(),
            i <= n,
            args@.map_values(|s: String| s@) == start + str_views(items@.subrange(0, i as int)),
        decreases n - i,
    {
        let ghost before = args@;
        args.push(String::from_str(items[i]));
        assert(str_views(items@.subrange(0, i + 1)) =~= str_views(items@.subrange(0, i as int)).push(
            items@[i as int]@,
        ));
        assert(args@.map_values(|s: String| s@) =~= before.map_values(|s: String| s@).push(
            items@[i as int]@,
        ));
        i = i + 1;
    }
    assert(items@.subrange(0, n as int) =~= items@);
}

/// The arguments with which the engine runs a module.
pub fn engine_arguments(
    engine: &str,
    engine_params: &Vec<&str>,
    module_file: &str,
    module_params: &Vec<&str>,
) -> (res: Vec<String>)
    ensures
        res@.map_values(|s: String| s@) == engine_args_of(
            engine@,
            engine_params@,
            module_file@,
            module_params@,
        ),
{
    let mut args: Vec<String> = Vec::new();
    if String::from_str(engine) == String::from_str("wasmer") {
        args.push(String::from_str("run"));
    }
    assert(args@.map_values(|s: String| s@) =~= (if engine@ == "wasmer"@ {
        seq!["run"@]
    } else {
        Seq::empty()
    }));
    push_all(&mut args, engine_params);
    let ghost mid = args@.map_values(|s: String| s@);
    args.push(String::from_str(module_file));
    assert(args@.map_values(|s: String| s@) =~= mid.push(module_file@));
    push_all(&mut args, module_params);
    assert(engine_args_of(engine@, engine_params@, module_file@, module_params@) =~= (if engine@
        == "wasmer"@ {
        seq!["run"@]
    } else {
        Seq::empty()
    }) + str_views(engine_params@) + seq![module_file@] + str_views(module_params@));
    args
}

/// A program that `init` runs: its module, and whether the scratch
/// directory is removed with everything in it afterwards (otherwise it is
/// removed as an empty directory).
#[derive(Clone, Copy, Debug, PartialEq, Eq)]
pub struct InitCase {
    pub module: &'static str,
    pub purge: bool,
}

/// The programs that `init` runs, in order.
pub open spec fn init_cases() -> Seq<InitCase> {
    seq![
        InitCase { module: "fd_prestat_get.wasm", purge: false },
        InitCase { module: "fd_prestat_dir_name.wasm", purge: false },
        InitCase { module: "path_open.wasm", purge: true },
        InitCase { module: "fd_filestat_get.wasm", purge: true },
        InitCase { module: "path_create_directory.wasm", purge: true },
        InitCase { module: "fd_fdstat_get.wasm", purge: true },
        InitCase { module: "path_unlink_file.wasm", purge: true },
    ]
}

/// The programs that `init` runs, in order.
pub fn init_plan() -> (res: Vec<InitCase>)
    ensures
        res@ == init_cases(),
{
    vec![
        InitCase { module: "fd_prestat_get.wasm", purge: false },
        InitCase { module: "fd_prestat_dir_name.wasm", purge: false },
        InitCase { module: "path_open.wasm", purge: true },
        InitCase { module: "fd_filestat_get.wasm", purge: true },
        InitCase { module: "path_create_directory.wasm", purge: true },
        InitCase { module: "fd_fdstat_get.wasm", purge: true },
        InitCase { module: "path_unlink_file.wasm", purge: true },
    ]
}

/// The count of programs run and of those that failed.
pub struct Tally {
    pub failed: u64,
    pub total: u64,
}

/// The line that ends `init`: `Ok` in green when nothing failed, `FAILED` in
/// red otherwise, then the counts.
pub open spec fn summary_text(failed: nat, total: nat) -> Seq<char> {
    "\ntest results: "@ + (if failed == 0 {
        colored(green_start(), "Ok"@)
    } else {
        colored(red_start(), "FAILED"@)
    }) + ". "@ + decimal(failed) + " failed, "@ + decimal((total - failed) as nat) + " passed"@
}

impl Tally {
    /// No program run yet.
    pub fn new() -> (res: Tally)
        ensures
            res.failed == 0,
            res.total == 0,
    {
        Tally { failed: 0, total: 0 }
    }

    /// Counts a program, failed unless `success`.
    pub fn record(&mut self, success: bool)
        requires
            old(self).failed <= old(self).total < u64::MAX,
        ensures
            final(self).total == old(self).total + 1,
            final(self).failed == old(self).failed + (if success { 0int } else { 1int }),
            final(self).failed <= final(self).total,
    {
        if !success {
            self.failed = self.failed + 1;
        }
        self.total = self.total + 1;
    }

    /// The line that ends `init`, on standard output.
    pub fn summary(&self) -> (res: Notice)
        requires
            self.failed <= self.total,
        ensures
            res@ == (NoticeView {
                to_stderr: false,
                text: summary_text(self.failed as nat, self.total as nat),
            }),
    {
        let verdict = if self.failed == 0 {
            String::from_str("\x1b[92m").concat("Ok").concat("\x1b[0m")
        } else {
            String::from_str("\x1b[91m").concat("FAILED").concat("\x1b[0m")
        };
        proof {
            reveal_strlit("\x1b[92m");
            reveal_strlit("\x1b[91m");
            reveal_strlit("\x1b[0m");
            assert("\x1b[92m"@ =~= green_start());
            assert("\x1b[91m"@ =~= red_start());
            assert("\x1b[0m"@ =~= crate::console::color_reset());
        }
        let failed = decimal_string(self.failed);
        let passed = decimal_string(self.total - self.failed);
        let text = String::from_str("\ntest results: ").concat(verdict.as_str()).concat(". ").concat(
            failed.as_str(),
        ).concat(" failed, ").concat(passed.as_str()).concat(" passed");
        Notice { to_stderr: false, text }
    }
}

} // verus!
