use wasi_tests::abi::{Errno, Prestat, Reply};
use wasi_tests::engine::{engine_arguments, engine_from_args, init_plan, wasm_modules_path, InitCase, Tally};
use wasi_tests::probes::{
    end_of_path_name_len, end_of_path_report, excl_refused, notdir_engine, preopen_engine,
    prestat_zero_report, stdio_filestat,
};
use wasi_tests::programs::fd_filestat_get::test_stdin_stdout_stderr;

#[test]
fn engine_is_the_first_argument() {
    assert_eq!(engine_from_args(&vec!["init".to_string(), "wasmtime".to_string()]), Some("wasmtime".to_string()));
    assert_eq!(engine_from_args(&vec!["init".to_string(), "wasmer".to_string(), "x".to_string()]), Some("wasmer".to_string()));
    assert_eq!(engine_from_args(&vec!["init".to_string()]), None);
    assert_eq!(engine_from_args(&vec![]), None);
}

#[test]
fn modules_are_found_under_the_target_directory() {
    assert_eq!(wasm_modules_path("/home/u/wasi-tests", "path_open.wasm"), "/home/u/wasi-tests/target/wasm32-wasi/debug/path_open.wasm");
}

#[test]
fn wasmer_is_told_to_run() {
    let args = engine_arguments("wasmer", &vec!["--dir", "scratch_dir"], "/m/a.wasm", &vec!["scratch_dir"]);
    assert_eq!(args, vec!["run", "--dir", "scratch_dir", "/m/a.wasm", "scratch_dir"]);
    let args = engine_arguments("wasmtime", &vec!["--dir", "scratch_dir"], "/m/a.wasm", &vec!["scratch_dir"]);
    assert_eq!(args, vec!["--dir", "scratch_dir", "/m/a.wasm", "scratch_dir"]);
    let args = engine_arguments("wasmer2", &vec![], "/m/a.wasm", &vec![]);
    assert_eq!(args, vec!["/m/a.wasm"]);
}

#[test]
fn init_runs_seven_programs() {
    let plan = init_plan();
    assert_eq!(plan.len(), 7);
    assert_eq!(plan[0], InitCase { module: "fd_prestat_get.wasm", purge: false });
    assert_eq!(plan[1], InitCase { module: "fd_prestat_dir_name.wasm", purge: false });
    assert_eq!(plan[6], InitCase { module: "path_unlink_file.wasm", purge: true });
    assert!(plan[2..].iter().all(|c| c.purge));
}

#[test]
fn tally_and_summary() {
    let mut t = Tally::new();
    for ok in [true, true, false, true, true, true, true] {
        t.record(ok);
    }
    assert_eq!((t.failed, t.total), (1, 7));
    let s = t.summary();
    assert!(!s.to_stderr);
    assert_eq!(s.text, "\ntest results: \x1b[91mFAILED\x1b[0m. 1 failed, 6 passed");
    let mut t = Tally::new();
    for _ in 0..7 {
        t.record(true);
    }
    assert_eq!(t.summary().text, "\ntest results: \x1b[92mOk\x1b[0m. 0 failed, 7 passed");
}

#[test]
fn probes_tell_engines_apart() {
    assert_eq!(notdir_engine(wasi::ERRNO_NOTDIR.raw()), Some("Wasmtime"));
    assert_eq!(notdir_engine(wasi::ERRNO_INVAL.raw()), Some("Wasmer"));
    assert_eq!(notdir_engine(wasi::ERRNO_BADF.raw()), None);
    let exist = Reply::Error(Errno { code: wasi::ERRNO_EXIST.raw(), name: "EXIST".to_string(), rendered: String::new() });
    assert!(excl_refused(&exist));
    assert!(!excl_refused(&Reply::Opened(5)));
    assert_eq!(preopen_engine(3, &b"d".to_vec(), &b"d".to_vec()), Some("Wasmtime used"));
    assert_eq!(preopen_engine(3, &b"/".to_vec(), &b"d".to_vec()), None);
    assert_eq!(preopen_engine(4, &b"x".to_vec(), &b"d".to_vec()), Some("Wasmer used"));
    assert_eq!(prestat_zero_report(None), "wasmer returns Ok(Prestat) for file descriptors 0, 1 and 2");
    assert_eq!(
        prestat_zero_report(Some("Bad file descriptor.")),
        "wasmtime returns wasi::ERRNO_BADF for file descriptors 0, 1 and 2\n                               \nError Message: Bad file descriptor."
    );
    assert_eq!(stdio_filestat().ops.len(), test_stdin_stdout_stderr().ops.len());
}

#[test]
fn end_of_path_walks_and_classifies() {
    assert_eq!(end_of_path_name_len(&Reply::Prestat(Prestat { tag: 0, name_len: 11 })), Some(11));
    let badf = Reply::Error(Errno { code: wasi::ERRNO_BADF.raw(), name: "BADF".to_string(), rendered: String::new() });
    assert_eq!(end_of_path_name_len(&badf), None);
    let arg = b"scratch_dir".to_vec();
    assert_eq!(end_of_path_report(3, &Reply::DirName(b"scratch_dir".to_vec()), &arg), Some("Wasmtime used"));
    assert_eq!(end_of_path_report(3, &Reply::DirName(b"/".to_vec()), &arg), None);
    assert_eq!(end_of_path_report(4, &Reply::DirName(b"./scratch_dir".to_vec()), &arg), Some("Wasmer used"));
    assert_eq!(end_of_path_report(4, &badf, &arg), None);
}
