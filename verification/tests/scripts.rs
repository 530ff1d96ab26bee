use wasi_tests::abi::{Call, Errno, FdStat, FileStat, Reply};
use wasi_tests::programs::fd_allocate::fd_allocate_test;
use wasi_tests::programs::fd_fdstat_get::test_regular_file_stat;
use wasi_tests::programs::fd_fdstat_set_rights::{add_file_rights, remove_file_rights};
use wasi_tests::programs::fd_filestat_get::{test_nlink, test_stdin_stdout_stderr};
use wasi_tests::programs::fd_prestat_get::test_zero_one_two_fd;
use wasi_tests::programs::fd_prestat_dir_name::test_zero_one_two;
use wasi_tests::programs::path_open::{test_file_doesnt_exist, test_path_directory, test_path_exists, test_fdread_rights};
use wasi_tests::programs::path_unlink_file::simple_unlink;
use wasi_tests::run::Run;
use wasi_tests::script::{Script, Verdict};

fn err(e: wasi::Errno) -> Reply {
    Reply::Error(Errno { code: e.raw(), name: e.name().to_string(), rendered: format!("{:?}", e) })
}

fn stat(size: u64, nlink: u64) -> Reply {
    Reply::FileStat(FileStat { nlink, size, atim: 0, mtim: 0, ctim: 0 })
}

fn fdstat(kind: &str, flags: u16, base: u64, inheriting: u64) -> Reply {
    Reply::FdStat(FdStat { filetype_name: kind.to_string(), flags, rights_base: base, rights_inheriting: inheriting })
}

/// Feeds the answers in order while the run waits; returns the calls it
/// made and how it ended.
fn drive(script: Script, scratch: u32, replies: Vec<Reply>) -> (Vec<Call<u32>>, Option<Verdict>) {
    let mut run = Run::new(script, scratch);
    let mut calls = Vec::new();
    let mut replies = replies.into_iter();
    while let Some(call) = run.pending() {
        calls.push(call);
        match replies.next() {
            Some(r) => {
                assert!(call.accepts(&r), "answer {:?} does not fit {:?}", r, call);
                run.answer(r)
            }
            None => return (calls, None),
        }
    }
    (calls, run.into_verdict())
}

fn failed_text(v: Option<Verdict>) -> String {
    match v {
        Some(Verdict::Failed(n)) => {
            assert!(n.to_stderr);
            n.text
        }
        other => panic!("expected a failure, got {:?}", other),
    }
}

fn aborted_text(v: Option<Verdict>) -> String {
    match v {
        Some(Verdict::Aborted(m)) => m,
        other => panic!("expected an abort, got {:?}", other),
    }
}

#[test]
fn fd_allocate_passes_when_sizes_grow_as_specified() {
    let replies = vec![
        Reply::Opened(7), stat(0, 1), Reply::Done, stat(100, 1), Reply::Done, stat(100, 1),
        Reply::Done, stat(130, 1), Reply::Done,
    ];
    let (calls, v) = drive(fd_allocate_test(), 5, replies);
    assert!(matches!(v, Some(Verdict::Passed)));
    assert_eq!(calls.len(), 9);
    assert_eq!(calls[0], Call::PathOpen { at: 5, path: "file", oflags: 1, base: 256 | 2097152, inheriting: 0 });
    assert_eq!(calls[1], Call::FdFilestatGet { fd: 7 });
    assert_eq!(calls[2], Call::FdAllocate { fd: 7, offset: 0, len: 100 });
    assert_eq!(calls[6], Call::FdAllocate { fd: 7, offset: 80, len: 50 });
    assert_eq!(calls[8], Call::PathUnlinkFile { at: 5, path: "file" });
}

#[test]
fn fd_allocate_aborts_on_a_wrong_size() {
    let (calls, v) = drive(fd_allocate_test(), 5, vec![Reply::Opened(7), stat(3, 1)]);
    assert_eq!(calls.len(), 2);
    assert_eq!(
        aborted_text(v),
        "assertion `left == right` failed: file size should be 0\n  left: 0\n right: 3"
    );
    let replies = vec![
        Reply::Opened(7), stat(0, 1), Reply::Done, stat(100, 1), Reply::Done, stat(100, 1),
        Reply::Done, stat(120, 1),
    ];
    assert_eq!(
        aborted_text(drive(fd_allocate_test(), 5, replies).1),
        "assertion `left == right` failed: file size should be equal to 100\n  left: 130\n right: 120"
    );
}

#[test]
fn a_failed_expect_aborts_with_the_rendered_error() {
    let (_, v) = drive(fd_allocate_test(), 5, vec![err(wasi::ERRNO_NOTCAPABLE)]);
    assert_eq!(aborted_text(v), format!("creating a file: {:?}", wasi::ERRNO_NOTCAPABLE));
}

#[test]
fn regular_file_type_and_fields_are_checked() {
    let ok = vec![Reply::Opened(9), fdstat("REGULAR_FILE", 0, 0, 0), Reply::Done];
    assert!(matches!(drive(test_regular_file_stat(), 3, ok).1, Some(Verdict::Passed)));
    let wrong_type = vec![Reply::Opened(9), fdstat("DIRECTORY", 0, 0, 0)];
    assert_eq!(
        failed_text(drive(test_regular_file_stat(), 3, wrong_type).1),
        "\n\x1b[91mfile should have type REGULAR_FILE\nFound Type: DIRECTORY\x1b[0m"
    );
    let rights = vec![Reply::Opened(9), fdstat("REGULAR_FILE", 0, 6, 0)];
    assert_eq!(
        aborted_text(drive(test_regular_file_stat(), 3, rights).1),
        "assertion `left == right` failed: file should have fs_rights_base 0\n  left: 6\n right: 0"
    );
}

#[test]
fn dropping_rights_is_followed_through() {
    let read = wasi::RIGHTS_FD_READ;
    let sync = wasi::RIGHTS_FD_SYNC;
    let readdir = wasi::RIGHTS_FD_READDIR;
    let replies = vec![
        Reply::Opened(10), fdstat("REGULAR_FILE", 0, read | sync, 0), Reply::Done,
        fdstat("REGULAR_FILE", 0, sync, 0), Reply::Done, fdstat("REGULAR_FILE", 0, 0, 0),
        Reply::Done, Reply::Done, Reply::Opened(11), fdstat("DIRECTORY", 0, readdir, read),
        Reply::Done, fdstat("DIRECTORY", 0, 0, 0), Reply::Done,
    ];
    let (calls, v) = drive(remove_file_rights(), 4, replies);
    assert!(matches!(v, Some(Verdict::Passed)));
    assert_eq!(calls[2], Call::FdFdstatSetRights { fd: 10, base: sync, inheriting: 0 });
    assert_eq!(calls[10], Call::FdFdstatSetRights { fd: 11, base: 0, inheriting: 0 });
    let refused = vec![Reply::Opened(10), fdstat("REGULAR_FILE", 0, read | sync, 0), err(wasi::ERRNO_PERM)];
    assert_eq!(
        failed_text(drive(remove_file_rights(), 4, refused).1),
        format!("\n\x1b[91m>> failed to drop fd_read right.\nFound Error: {:?}\x1b[0m", wasi::ERRNO_PERM)
    );
    let kept = vec![Reply::Opened(10), fdstat("REGULAR_FILE", 0, read | sync, 0), Reply::Done, fdstat("REGULAR_FILE", 0, read | sync, 0)];
    assert_eq!(
        aborted_text(drive(remove_file_rights(), 4, kept).1),
        "assertion `left == right` failed: file should NOT have fd_read right\n  left: 2\n right: 0"
    );
    let missing = vec![Reply::Opened(10), fdstat("REGULAR_FILE", 0, sync, 0)];
    assert_eq!(
        aborted_text(drive(remove_file_rights(), 4, missing).1),
        "assertion `left != right` failed: file should have fd_read right\n  left: 0\n right: 0"
    );
}

#[test]
fn adding_rights_must_be_refused() {
    let replies = vec![
        Reply::Opened(10), err(wasi::ERRNO_NOTCAPABLE), Reply::Done, Reply::Done, Reply::Opened(11),
        err(wasi::ERRNO_NOTCAPABLE), Reply::Done,
    ];
    assert!(matches!(drive(add_file_rights(), 4, replies).1, Some(Verdict::Passed)));
    let accepted = vec![Reply::Opened(10), Reply::Done];
    assert_eq!(
        failed_text(drive(add_file_rights(), 4, accepted).1),
        "\n\x1b[91m>> adding new rights to a file should return Err(). Found Ok()\x1b[0m"
    );
    let other = vec![Reply::Opened(10), err(wasi::ERRNO_PERM)];
    assert_eq!(
        failed_text(drive(add_file_rights(), 4, other).1),
        "\n\x1b[91m>> adding new rights to a file should return ERRNO_NOTCAPABLE\nFound Error: ERRNO_PERM\x1b[0m"
    );
}

#[test]
fn link_count_is_reported_with_its_value() {
    let replies = vec![
        Reply::Opened(6), stat(0, 1), Reply::Done, Reply::Opened(8), Reply::Done, stat(0, 1),
    ];
    let (calls, v) = drive(test_nlink(), 3, replies);
    assert_eq!(calls[4], Call::PathLink { from: 3, from_path: "file", to: 8, to_path: "file" });
    assert_eq!(
        failed_text(v),
        "\n\x1b[91m>> file should have 2 nlinlk\nFound nlinks:1\x1b[0m"
    );
}

#[test]
fn stdio_stats_pass_when_all_zero() {
    let zeros = vec![stat(0, 1), stat(0, 1), stat(0, 1)];
    let (calls, v) = drive(test_stdin_stdout_stderr(), 3, zeros);
    assert_eq!(calls, vec![Call::FdFilestatGet { fd: 0 }, Call::FdFilestatGet { fd: 1 }, Call::FdFilestatGet { fd: 2 }]);
    assert!(matches!(v, Some(Verdict::Passed)));
}

#[test]
fn stdio_stats_fail_without_ending_the_program() {
    let v = drive(test_stdin_stdout_stderr(), 3, vec![stat(0, 1), stat(12, 1)]).1;
    assert_eq!(v.as_ref().unwrap().code(), Some(1));
    assert_eq!(
        failed_text(v),
        "\n\x1b[91massertion `left == right` failed: stdio size should be 0\n  left: 12\n right: 0\x1b[0m"
    );
    let timed = Reply::FileStat(FileStat { nlink: 1, size: 0, atim: 0, mtim: 5, ctim: 0 });
    let v = drive(test_stdin_stdout_stderr(), 3, vec![stat(0, 1), stat(0, 1), timed]).1;
    assert_eq!(
        failed_text(v),
        "\n\x1b[91massertion `left == right` failed: stdio mtim should be 0\n  left: 5\n right: 0\x1b[0m"
    );
    let v = drive(test_stdin_stdout_stderr(), 3, vec![err(wasi::ERRNO_BADF)]).1;
    assert_eq!(
        failed_text(v),
        format!("\n\x1b[91mfailed filestat 0: {:?}\x1b[0m", wasi::ERRNO_BADF)
    );
}

#[test]
fn every_rights_drop_failure_is_reported() {
    let read = wasi::RIGHTS_FD_READ;
    let sync = wasi::RIGHTS_FD_SYNC;
    let readdir = wasi::RIGHTS_FD_READDIR;
    let second = vec![
        Reply::Opened(10), fdstat("REGULAR_FILE", 0, read | sync, 0), Reply::Done,
        fdstat("REGULAR_FILE", 0, sync, 0), err(wasi::ERRNO_PERM),
    ];
    assert_eq!(
        failed_text(drive(remove_file_rights(), 4, second).1),
        format!("\n\x1b[91m>> failed to drop fd_sync right.\nFound Error: {:?}\x1b[0m", wasi::ERRNO_PERM)
    );
    let third = vec![
        Reply::Opened(10), fdstat("REGULAR_FILE", 0, read | sync, 0), Reply::Done,
        fdstat("REGULAR_FILE", 0, sync, 0), Reply::Done, fdstat("REGULAR_FILE", 0, 0, 0),
        Reply::Done, Reply::Done, Reply::Opened(11), fdstat("DIRECTORY", 0, readdir, read),
        err(wasi::ERRNO_PERM),
    ];
    assert_eq!(
        failed_text(drive(remove_file_rights(), 4, third).1),
        format!("\n\x1b[91m>> failed to drop base and inheriting rights.\nFound Error: {:?}\x1b[0m", wasi::ERRNO_PERM)
    );
}

#[test]
fn standard_descriptors_are_not_preopened() {
    let bad = || err(wasi::ERRNO_BADF);
    let (calls, v) = drive(test_zero_one_two_fd(), 3, vec![bad(), bad(), bad()]);
    assert!(matches!(v, Some(Verdict::Passed)));
    assert_eq!(calls, vec![Call::FdPrestatGet { fd: 0 }, Call::FdPrestatGet { fd: 1 }, Call::FdPrestatGet { fd: 2 }]);
    let other = drive(test_zero_one_two_fd(), 3, vec![err(wasi::ERRNO_NOTDIR)]).1;
    assert_eq!(failed_text(other), "\x1b[91mtest failed: should get ERRNO_BADF. Got ERRNO_NOTDIR instead\x1b[0m");
    let second = drive(test_zero_one_two_fd(), 3, vec![bad(), err(wasi::ERRNO_NOTDIR)]).1;
    assert_eq!(failed_text(second), "\x1b[91mShould get ERRNO_BADF. Got ERRNO_IO instead\x1b[0m");
    let notdir = || err(wasi::ERRNO_NOTDIR);
    let (calls, v) = drive(test_zero_one_two(), 3, vec![notdir(), notdir(), notdir()]);
    assert!(matches!(v, Some(Verdict::Passed)));
    assert_eq!(calls[0], Call::FdPrestatDirName { fd: 0, len: 5 });
    assert_eq!(calls[2], Call::FdPrestatDirName { fd: 2, len: 6 });
    let named = drive(test_zero_one_two(), 3, vec![Reply::DirName(vec![0; 5])]).1;
    assert_eq!(failed_text(named), "\x1b[91mfile descriptor 0 should return NOTDIR Error\x1b[0m");
}

#[test]
fn path_open_messages() {
    let v = drive(test_file_doesnt_exist(), 3, vec![err(wasi::ERRNO_ACCES)]).1;
    assert_eq!(
        failed_text(v),
        "\n\x1b[91m>> opening a file that doesn't exist should return ERRNO_NOENT\nFound: ERRNO_\"ACCES\"\x1b[0m"
    );
    let v = drive(test_path_exists(), 3, vec![Reply::Opened(4), Reply::Opened(5)]).1;
    assert_eq!(
        failed_text(v),
        "\n\x1b[91m>> creating a file that already exists with OFLAGS_EXCL should return Err(ERRNO_EXIST):\nExpected: Err(ERRNO_EXIST)\nFound: Ok(Fd)\x1b[0m"
    );
    let v = drive(test_path_exists(), 3, vec![Reply::Opened(4), err(wasi::ERRNO_INVAL)]).1;
    assert_eq!(
        failed_text(v),
        "\n\x1b[91m>> creating a file that already exists with OFLAGS_EXCL should return ERRNO_EXIST:\nExpected: ERRNO_EXIST\nFound: ERRNO_INVAL \x1b[0m"
    );
    let replies = vec![Reply::Done, Reply::Opened(4), err(wasi::ERRNO_NOTDIR), err(wasi::ERRNO_NOENT)];
    let v = drive(test_path_directory(), 3, replies).1;
    assert_eq!(
        failed_text(v),
        format!("\n\x1b[91mpath_open with OFLAGS_DIRECTORY and directory path should return Ok:\nExpected: Ok(fd)\nFound: Err( {:?} )\x1b[0m", wasi::ERRNO_NOENT)
    );
}

#[test]
fn read_right_decides_fd_read() {
    let replies = vec![
        Reply::Opened(4), fdstat("REGULAR_FILE", 0, 0, 0), err(wasi::ERRNO_BADF), Reply::Opened(5),
        Reply::Read(0), Reply::Done,
    ];
    let (calls, v) = drive(test_fdread_rights(), 3, replies);
    assert!(matches!(v, Some(Verdict::Passed)));
    assert_eq!(calls[2], Call::FdRead { fd: 4, len: 1 });
    assert_eq!(calls[4], Call::FdRead { fd: 5, len: 1 });
    let v = drive(test_fdread_rights(), 3, vec![Reply::Opened(4), fdstat("REGULAR_FILE", 0, 2, 0)]).1;
    assert_eq!(failed_text(v), "\n\x1b[91m>> fd should not have base RIGHTS_FD_READ\x1b[0m");
}

#[test]
fn unlinked_file_is_gone() {
    let v = drive(simple_unlink(), 3, vec![Reply::Opened(4), Reply::Done, err(wasi::ERRNO_NOENT)]).1;
    assert!(matches!(v, Some(Verdict::Passed)));
    let v = drive(simple_unlink(), 3, vec![Reply::Opened(4), err(wasi::ERRNO_PERM)]).1;
    assert_eq!(failed_text(v), "\n\x1b[91m>> couldn't unlink file\x1b[0m");
    assert_eq!(Verdict::Passed.code(), Some(0));
}

/// The answers under which `remove_file_rights` passes.
fn rights_drop_answers() -> Vec<Reply> {
    let read = wasi::RIGHTS_FD_READ;
    let sync = wasi::RIGHTS_FD_SYNC;
    let readdir = wasi::RIGHTS_FD_READDIR;
    vec![
        Reply::Opened(10), fdstat("REGULAR_FILE", 0, read | sync, 0), Reply::Done,
        fdstat("REGULAR_FILE", 0, sync, 0), Reply::Done, fdstat("REGULAR_FILE", 0, 0, 0),
        Reply::Done, Reply::Done, Reply::Opened(11), fdstat("DIRECTORY", 0, readdir, read),
        Reply::Done, fdstat("DIRECTORY", 0, 0, 0), Reply::Done,
    ]
}

#[test]
fn a_run_cut_short_makes_the_first_calls_of_its_script() {
    let read = wasi::RIGHTS_FD_READ;
    let sync = wasi::RIGHTS_FD_SYNC;
    let (all_calls, _) = drive(remove_file_rights(), 4, rights_drop_answers());
    assert_eq!(all_calls[0], Call::PathOpen { at: 4, path: "file", oflags: wasi::OFLAGS_CREAT, base: read | sync, inheriting: 0 });
    let set_rights: Vec<Call<u32>> = all_calls
        .iter()
        .copied()
        .filter(|c| matches!(c, Call::FdFdstatSetRights { .. }))
        .collect();
    assert_eq!(set_rights, vec![
        Call::FdFdstatSetRights { fd: 10, base: sync, inheriting: 0 },
        Call::FdFdstatSetRights { fd: 10, base: 0, inheriting: 0 },
        Call::FdFdstatSetRights { fd: 11, base: 0, inheriting: 0 },
    ]);
    let mut cut: Vec<Reply> = rights_drop_answers().into_iter().take(5).collect();
    cut[4] = err(wasi::ERRNO_PERM);
    let (calls, v) = drive(remove_file_rights(), 4, cut);
    assert!(matches!(v, Some(Verdict::Failed(_))));
    assert_eq!(calls.len(), 5);
    assert_eq!(calls[..], all_calls[..5]);
    let some: Vec<Reply> = rights_drop_answers().into_iter().take(8).collect();
    let (waiting, v) = drive(remove_file_rights(), 4, some);
    assert!(v.is_none());
    assert_eq!(waiting.len(), 9);
    assert_eq!(waiting[..], all_calls[..9]);
}
