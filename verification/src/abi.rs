//! The part of the WASI snapshot-preview1 interface that the suite exercises:
//! the numbers it passes, the calls it makes and the answers it reads, as
//! plain values.

use vstd::prelude::*;

verus! {

/// A file descriptor number.
pub type Fd = u32;

/// Standard input.
pub const FD_STDIN: u32 = 0;
/// Standard output.
pub const FD_STDOUT: u32 = 1;
/// Standard error.
pub const FD_STDERR: u32 = 2;

/// Bad file descriptor.
pub const ERRNO_BADF: u16 = 8;
/// File exists.
pub const ERRNO_EXIST: u16 = 20;
/// Invalid argument.
pub const ERRNO_INVAL: u16 = 28;
/// I/O error.
pub const ERRNO_IO: u16 = 29;
/// Is a directory.
pub const ERRNO_ISDIR: u16 = 31;
/// No such file or directory.
pub const ERRNO_NOENT: u16 = 44;
/// Not a directory or a symbolic link to a directory.
pub const ERRNO_NOTDIR: u16 = 54;
/// Extension: capabilities insufficient.
pub const ERRNO_NOTCAPABLE: u16 = 76;

/// Create the file if it does not exist.
pub const OFLAGS_CREAT: u16 = 1;
/// Fail if the path is not a directory.
pub const OFLAGS_DIRECTORY: u16 = 2;
/// Fail if the file already exists.
pub const OFLAGS_EXCL: u16 = 4;

/// The right to call `fd_read`.
pub const RIGHTS_FD_READ: u64 = 2;
/// The right to call `fd_seek`.
pub const RIGHTS_FD_SEEK: u64 = 4;
/// The right to call `fd_sync`.
pub const RIGHTS_FD_SYNC: u64 = 16;
/// The right to call `fd_allocate`.
pub const RIGHTS_FD_ALLOCATE: u64 = 256;
/// The right to be the target directory of `path_link`.
pub const RIGHTS_PATH_LINK_TARGET: u64 = 4096;
/// The right to call `fd_readdir`.
pub const RIGHTS_FD_READDIR: u64 = 16384;
/// The right to call `fd_filestat_get`.
pub const RIGHTS_FD_FILESTAT_GET: u64 = 2097152;
/// The right to call `path_remove_directory`.
pub const RIGHTS_PATH_REMOVE_DIRECTORY: u64 = 33554432;
/// The right to call `path_unlink_file`.
pub const RIGHTS_PATH_UNLINK_FILE: u64 = 67108864;

/// A WASI error as the suite reads it: its number, its name, and its
/// rendering with `{:?}`.
#[derive(Debug)]
pub struct Errno {
    pub code: u16,
    pub name: String,
    pub rendered: String,
}

/// The mathematical value of an [`Errno`].
pub struct ErrnoView {
    pub code: u16,
    pub name: Seq<char>,
    pub rendered: Seq<char>,
}

impl View for Errno {
    type V = ErrnoView;

    open spec fn view(&self) -> ErrnoView {
        ErrnoView { code: self.code, name: self.name@, rendered: self.rendered@ }
    }
}

/// The fields of a `filestat` that the suite reads.
#[derive(Clone, Copy, Debug, PartialEq, Eq)]
pub struct FileStat {
    pub nlink: u64,
    pub size: u64,
    pub atim: u64,
    pub mtim: u64,
    pub ctim: u64,
}

/// The fields of an `fdstat` that the suite reads; the file type by its name.
#[derive(Debug)]
pub struct FdStat {
    pub filetype_name: String,
    pub flags: u16,
    pub rights_base: u64,
    pub rights_inheriting: u64,
}

/// The mathematical value of an [`FdStat`].
pub struct FdStatView {
    pub filetype_name: Seq<char>,
    pub flags: u16,
    pub rights_base: u64,
    pub rights_inheriting: u64,
}

impl View for FdStat {
    type V = FdStatView;

    open spec fn view(&self) -> FdStatView {
        FdStatView {
            filetype_name: self.filetype_name@,
            flags: self.flags,
            rights_base: self.rights_base,
            rights_inheriting: self.rights_inheriting,
        }
    }
}

/// A `prestat`: its tag, and the length of the directory name that the
/// directory variant holds.
#[derive(Clone, Copy, Debug, PartialEq, Eq)]
pub struct Prestat {
    pub tag: u8,
    pub name_len: usize,
}

/// One WASI call, with the descriptors it names written as `F`.
/// Lookup flags, descriptor flags and the old path's flags are always 0.
#[derive(Clone, Copy, Debug, PartialEq, Eq)]
pub enum Call<F> {
    PathOpen { at: F, path: &'static str, oflags: u16, base: u64, inheriting: u64 },
    PathCreateDirectory { at: F, path: &'static str },
    PathRemoveDirectory { at: F, path: &'static str },
    PathUnlinkFile { at: F, path: &'static str },
    PathLink { from: F, from_path: &'static str, to: F, to_path: &'static str },
    FdFilestatGet { fd: F },
    FdFdstatGet { fd: F },
    FdFdstatSetRights { fd: F, base: u64, inheriting: u64 },
    FdAllocate { fd: F, offset: u64, len: u64 },
    FdRead { fd: F, len: usize },
    FdPrestatGet { fd: F },
    FdPrestatDirName { fd: F, len: usize },
}

/// What a WASI call gave back.
#[derive(Debug)]
pub enum Reply {
    /// `Ok(())`.
    Done,
    /// `Ok(fd)` of `path_open`.
    Opened(u32),
    /// `Ok(n)` of `fd_read`: the number of bytes read.
    Read(usize),
    FileStat(FileStat),
    FdStat(FdStat),
    Prestat(Prestat),
    /// The bytes that `fd_prestat_dir_name` wrote.
    DirName(Vec<u8>),
    Error(Errno),
}

/// The mathematical value of a [`Reply`].
pub enum ReplyView {
    Done,
    Opened(u32),
    Read(usize),
    FileStat(FileStat),
    FdStat(FdStatView),
    Prestat(Prestat),
    DirName(Seq<u8>),
    Error(ErrnoView),
}

impl View for Reply {
    type V = ReplyView;

    open spec fn view(&self) -> ReplyView {
        match self {
            Reply::Done => ReplyView::Done,
            Reply::Opened(fd) => ReplyView::Opened(*fd),
            Reply::Read(n) => ReplyView::Read(*n),
            Reply::FileStat(s) => ReplyView::FileStat(*s),
            Reply::FdStat(s) => ReplyView::FdStat(s@),
            Reply::Prestat(p) => ReplyView::Prestat(*p),
            Reply::DirName(b) => ReplyView::DirName(b@),
            Reply::Error(e) => ReplyView::Error(e@),
        }
    }
}

/// Whether `reply` is an answer that `call` can give: an error, or the
/// success value of its kind (for `fd_prestat_dir_name`, as many bytes as
/// were asked for).
pub open spec fn answers<F>(call: Call<F>, reply: ReplyView) -> bool {
    match reply {
        ReplyView::Error(_) => true,
        ReplyView::Done => {
            ||| call is PathCreateDirectory
            ||| call is PathRemoveDirectory
            ||| call is PathUnlinkFile
            ||| call is PathLink
            ||| call is FdFdstatSetRights
            ||| call is FdAllocate
        },
        ReplyView::Opened(_) => call is PathOpen,
        ReplyView::Read(_) => call is FdRead,
        ReplyView::FileStat(_) => call is FdFilestatGet,
        ReplyView::FdStat(_) => call is FdFdstatGet,
        ReplyView::Prestat(_) => call is FdPrestatGet,
        ReplyView::DirName(bytes) => match call {
            Call::FdPrestatDirName { len, .. } => bytes.len() == len,
            _ => false,
        },
    }
}

impl<F: Copy> Call<F> {
    /// Whether `reply` is an answer that this call can give.
    pub fn accepts(&self, reply: &Reply) -> (res: bool)
        ensures
            res == answers(*self, reply@),
    {
        match reply {
            Reply::Error(_) => true,
            Reply::Done => match self {
                Call::PathCreateDirectory { .. } => true,
                Call::PathRemoveDirectory { .. } => true,
                Call::PathUnlinkFile { .. } => true,
                Call::PathLink { .. } => true,
                Call::FdFdstatSetRights { .. } => true,
                Call::FdAllocate { .. } => true,
                _ => false,
            },
            Reply::Opened(_) => matches!(self, Call::PathOpen { .. }),
            Reply::Read(_) => matches!(self, Call::FdRead { .. }),
            Reply::FileStat(_) => matches!(self, Call::FdFilestatGet { .. }),
            Reply::FdStat(_) => matches!(self, Call::FdFdstatGet { .. }),
            Reply::Prestat(_) => matches!(self, Call::FdPrestatGet { .. }),
            Reply::DirName(bytes) => match self {
                Call::FdPrestatDirName { len, .. } => bytes.len() == *len,
                _ => false,
            },
        }
    }
}

} // verus!
