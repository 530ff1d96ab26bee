use wasi_tests::abi::{Call, Errno, FdStat, Prestat, Reply};
use wasi_tests::scan::{scan_test_verdict, scratch_goal, scratch_or_fallback, scratch_result, Goal, Scan, ScanEnd};
use wasi_tests::programs::fd_prestat_get::test_correct_dir_name_len;
use wasi_tests::programs::fd_prestat_dir_name::test_valid_path;
use wasi_tests::script::Verdict;
use wasi_tests::suite::{fd_allocate_suite, fd_prestat_get_suite, path_open_suite, Case, Session};

fn err(e: wasi::Errno) -> Reply {
    Reply::Error(Errno { code: e.raw(), name: e.name().to_string(), rendered: format!("{:?}", e) })
}

fn prestat(tag: u8, name_len: usize) -> Reply {
    Reply::Prestat(Prestat { tag, name_len })
}

fn drive(goal: Goal, replies: Vec<Reply>) -> (Vec<Call<u32>>, Option<ScanEnd>) {
    let mut scan = Scan::new(goal);
    let mut calls = Vec::new();
    let mut replies = replies.into_iter();
    while let Some(call) = scan.pending() {
        calls.push(call);
        match replies.next() {
            Some(r) => {
                assert!(call.accepts(&r));
                scan.answer(r)
            }
            None => return (calls, None),
        }
    }
    (calls, scan.into_end())
}

#[test]
fn scratch_directory_is_found_by_name_and_reopened() {
    let replies = vec![
        prestat(0, 1), Reply::DirName(b"/".to_vec()),
        prestat(1, 0),
        prestat(0, 11), Reply::DirName(b"scratch_dir".to_vec()),
        Reply::FdStat(FdStat { filetype_name: "DIRECTORY".to_string(), flags: 0, rights_base: 77, rights_inheriting: 88 }),
        Reply::Opened(9),
    ];
    let (calls, end) = drive(scratch_goal("scratch_dir"), replies);
    assert_eq!(calls, vec![
        Call::FdPrestatGet { fd: 3 },
        Call::FdPrestatDirName { fd: 3, len: 1 },
        Call::FdPrestatGet { fd: 4 },
        Call::FdPrestatGet { fd: 5 },
        Call::FdPrestatDirName { fd: 5, len: 11 },
        Call::FdFdstatGet { fd: 5 },
        Call::PathOpen { at: 5, path: ".", oflags: 2, base: 77, inheriting: 88 },
    ]);
    let end = end.unwrap();
    assert!(matches!(end, ScanEnd::Found(9)));
    assert_eq!(scratch_result(end), Ok(9));
}

#[test]
fn scratch_directory_missing_or_unreadable() {
    let (_, end) = drive(scratch_goal("scratch_dir"), vec![prestat(0, 3), err(wasi::ERRNO_NOTSUP), err(wasi::ERRNO_BADF)]);
    let res = scratch_result(end.unwrap());
    assert_eq!(res, Err("failed to find scratch dir".to_string()));
    assert_eq!(scratch_or_fallback(res), 4);
    assert_eq!(scratch_or_fallback(Ok(6)), 6);
    let replies = vec![prestat(0, 1), Reply::DirName(b"s".to_vec()), err(wasi::ERRNO_BADF)];
    match drive(scratch_goal("s"), replies).1 {
        Some(ScanEnd::Aborted(m)) => assert_eq!(m, format!("fd_fdstat_get failed: {:?}", wasi::ERRNO_BADF)),
        other => panic!("{:?}", other),
    }
}

#[test]
fn name_length_and_name_searches() {
    let search = test_correct_dir_name_len("scratch_dir".to_string());
    assert_eq!(search.missing, "couldn't find the directory/file");
    let (calls, end) = drive(search.goal, vec![prestat(0, 1), prestat(0, 11)]);
    assert_eq!(calls.len(), 2);
    assert!(matches!(scan_test_verdict(end.unwrap(), search.missing), Verdict::Passed));
    let search = test_correct_dir_name_len("abc".to_string());
    let (_, end) = drive(search.goal, vec![prestat(0, 1), err(wasi::ERRNO_BADF)]);
    match scan_test_verdict(end.unwrap(), search.missing) {
        Verdict::Failed(n) => assert_eq!(n.text, "\x1b[91mcouldn't find the directory/file\x1b[0m"),
        other => panic!("{:?}", other),
    }
    let search = test_valid_path("dir".to_string());
    assert_eq!(search.missing, "failed to find dir");
    let replies = vec![prestat(0, 1), err(wasi::ERRNO_INVAL), prestat(0, 3), Reply::DirName(b"dir".to_vec())];
    let (calls, end) = drive(search.goal, replies);
    assert_eq!(calls[1], Call::FdPrestatDirName { fd: 3, len: 1 });
    assert_eq!(calls[3], Call::FdPrestatDirName { fd: 4, len: 3 });
    assert!(matches!(end, Some(ScanEnd::Found(4))));
}

#[test]
fn scan_moves_up_one_descriptor_at_a_time() {
    let mut scan = Scan::new(Goal::NameLength(5));
    for _ in 3..20u32 {
        scan.answer(prestat(0, 1));
    }
    assert_eq!(scan.pending(), Some(Call::FdPrestatGet { fd: 20 }));
}

#[test]
fn suites_list_their_tests() {
    let s = fd_allocate_suite();
    assert_eq!(s.name, "fd_allocate");
    assert!(s.locates_scratch && s.spaced && !s.short_circuit && s.exit_status);
    assert_eq!(s.cases.len(), 1);
    assert_eq!(path_open_suite().cases.len(), 6);
    let p = fd_prestat_get_suite("dir".to_string());
    assert!(!p.locates_scratch && !p.spaced && p.short_circuit && !p.exit_status);
    match &p.cases[1] {
        Case::Search(search) => assert!(matches!(search.goal, Goal::NameLength(3))),
        _ => panic!("second case should be a search"),
    }
}

#[test]
fn session_combines_results() {
    let suite = path_open_suite();
    let mut session = Session::new(&suite);
    assert_eq!(session.banner().text, "\n\x1b[93mTesting path_open ...\x1b[0m");
    let mut ran = 0;
    while let Some(i) = session.next_case() {
        assert_eq!(i, ran);
        session.record(if i == 2 { 1 } else { 0 });
        ran += 1;
    }
    assert_eq!(ran, 6);
    let (notice, status) = session.closing();
    assert!(notice.to_stderr);
    assert_eq!(notice.text, "\n\x1b[91mpath_open tests failed \u{2717}\x1b[0m");
    assert_eq!(status, Some(1));

    let mut session = Session::new(&suite);
    while session.next_case().is_some() {
        session.record(0);
    }
    let (notice, status) = session.closing();
    assert!(!notice.to_stderr);
    assert_eq!(notice.text, "\x1b[92mpath_open tests passed \u{2713}\x1b[0m");
    assert_eq!(status, Some(0));

    let prestat_suite = fd_prestat_get_suite("d".to_string());
    let mut session = Session::new(&prestat_suite);
    assert_eq!(session.banner().text, "\x1b[93mTesting fd_prestat_get ...\x1b[0m");
    assert_eq!(session.next_case(), Some(0));
    session.record(1);
    assert_eq!(session.next_case(), None);
    let (notice, status) = session.closing();
    assert_eq!(notice.text, "\x1b[91mfd_prestat_get tests failed \u{2717}\x1b[0m");
    assert_eq!(status, None);
}

#[test]
fn name_search_passes_only_on_an_exact_name_in_the_listing() {
    let search = test_valid_path("dir".to_string());
    let listing = vec![
        prestat(0, 2), Reply::DirName(b"di".to_vec()),
        prestat(0, 4), Reply::DirName(b"dir/".to_vec()),
        err(wasi::ERRNO_BADF),
    ];
    let (calls, end) = drive(search.goal, listing);
    assert_eq!(calls.len(), 5);
    assert_eq!(calls[4], Call::FdPrestatGet { fd: 5 });
    match scan_test_verdict(end.unwrap(), search.missing) {
        Verdict::Failed(n) => {
            assert!(n.to_stderr);
            assert_eq!(n.text, "\x1b[91mfailed to find dir\x1b[0m");
        }
        other => panic!("{:?}", other),
    }
    let listing = vec![
        prestat(0, 2), Reply::DirName(b"di".to_vec()),
        prestat(0, 3), Reply::DirName(b"dir".to_vec()),
    ];
    let search = test_valid_path("dir".to_string());
    let (_, end) = drive(search.goal, listing);
    let end = end.unwrap();
    assert!(matches!(end, ScanEnd::Found(4)));
    assert_eq!(scan_test_verdict(end, search.missing).code(), Some(0));
}

#[test]
fn length_search_reads_only_prestats_and_compares_lengths() {
    let search = test_correct_dir_name_len("abc".to_string());
    let (calls, end) = drive(search.goal, vec![prestat(0, 2), prestat(1, 4), err(wasi::ERRNO_BADF)]);
    assert_eq!(calls, vec![
        Call::FdPrestatGet { fd: 3 },
        Call::FdPrestatGet { fd: 4 },
        Call::FdPrestatGet { fd: 5 },
    ]);
    assert_eq!(scan_test_verdict(end.unwrap(), search.missing).code(), Some(1));
    let search = test_correct_dir_name_len("abc".to_string());
    let (calls, end) = drive(search.goal, vec![prestat(0, 2), prestat(1, 3)]);
    assert_eq!(calls.len(), 2);
    assert!(matches!(end, Some(ScanEnd::Found(4))));
}
