use wasi_tests::abi::{
    Call, Errno, Reply, ERRNO_BADF, ERRNO_EXIST, ERRNO_INVAL, ERRNO_IO, ERRNO_ISDIR, ERRNO_NOENT,
    ERRNO_NOTCAPABLE, ERRNO_NOTDIR, FD_STDERR, FD_STDIN, FD_STDOUT, OFLAGS_CREAT, OFLAGS_DIRECTORY,
    OFLAGS_EXCL, RIGHTS_FD_ALLOCATE, RIGHTS_FD_FILESTAT_GET, RIGHTS_FD_READ, RIGHTS_FD_READDIR,
    RIGHTS_FD_SEEK, RIGHTS_FD_SYNC, RIGHTS_PATH_LINK_TARGET, RIGHTS_PATH_REMOVE_DIRECTORY,
    RIGHTS_PATH_UNLINK_FILE,
};

#[test]
fn errno_codes_are_those_of_the_wasi_crate() {
    assert_eq!(ERRNO_BADF, wasi::ERRNO_BADF.raw());
    assert_eq!(ERRNO_EXIST, wasi::ERRNO_EXIST.raw());
    assert_eq!(ERRNO_INVAL, wasi::ERRNO_INVAL.raw());
    assert_eq!(ERRNO_IO, wasi::ERRNO_IO.raw());
    assert_eq!(ERRNO_ISDIR, wasi::ERRNO_ISDIR.raw());
    assert_eq!(ERRNO_NOENT, wasi::ERRNO_NOENT.raw());
    assert_eq!(ERRNO_NOTDIR, wasi::ERRNO_NOTDIR.raw());
    assert_eq!(ERRNO_NOTCAPABLE, wasi::ERRNO_NOTCAPABLE.raw());
}

#[test]
fn flags_and_rights_are_those_of_the_wasi_crate() {
    assert_eq!(OFLAGS_CREAT, wasi::OFLAGS_CREAT);
    assert_eq!(OFLAGS_DIRECTORY, wasi::OFLAGS_DIRECTORY);
    assert_eq!(OFLAGS_EXCL, wasi::OFLAGS_EXCL);
    assert_eq!(RIGHTS_FD_READ, wasi::RIGHTS_FD_READ);
    assert_eq!(RIGHTS_FD_SEEK, wasi::RIGHTS_FD_SEEK);
    assert_eq!(RIGHTS_FD_SYNC, wasi::RIGHTS_FD_SYNC);
    assert_eq!(RIGHTS_FD_ALLOCATE, wasi::RIGHTS_FD_ALLOCATE);
    assert_eq!(RIGHTS_PATH_LINK_TARGET, wasi::RIGHTS_PATH_LINK_TARGET);
    assert_eq!(RIGHTS_FD_READDIR, wasi::RIGHTS_FD_READDIR);
    assert_eq!(RIGHTS_FD_FILESTAT_GET, wasi::RIGHTS_FD_FILESTAT_GET);
    assert_eq!(RIGHTS_PATH_REMOVE_DIRECTORY, wasi::RIGHTS_PATH_REMOVE_DIRECTORY);
    assert_eq!(RIGHTS_PATH_UNLINK_FILE, wasi::RIGHTS_PATH_UNLINK_FILE);
    assert_eq!(FD_STDIN, wasi::FD_STDIN);
    assert_eq!(FD_STDOUT, wasi::FD_STDOUT);
    assert_eq!(FD_STDERR, wasi::FD_STDERR);
}

#[test]
fn calls_accept_only_their_own_answers() {
    let open: Call<u32> = Call::PathOpen { at: 3, path: "file", oflags: 0, base: 0, inheriting: 0 };
    assert!(open.accepts(&Reply::Opened(4)));
    assert!(!open.accepts(&Reply::Done));
    let e = Errno { code: 8, name: "BADF".to_string(), rendered: String::new() };
    assert!(open.accepts(&Reply::Error(e)));
    let name: Call<u32> = Call::FdPrestatDirName { fd: 3, len: 2 };
    assert!(name.accepts(&Reply::DirName(vec![1, 2])));
    assert!(!name.accepts(&Reply::DirName(vec![1])));
    let unlink: Call<u32> = Call::PathUnlinkFile { at: 3, path: "file" };
    assert!(unlink.accepts(&Reply::Done));
    assert!(!unlink.accepts(&Reply::Read(1)));
}
