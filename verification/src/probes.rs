//! The decisions of the programs that show where engines differ.

use vstd::prelude::*;

use crate::abi::{Reply, ERRNO_EXIST, ERRNO_INVAL, ERRNO_NOTDIR};
use crate::programs::fd_filestat_get::test_stdin_stdout_stderr_ops;
use crate::script::{assert_field, must, Field, Guard, Script, ScriptView, Slot};
use crate::abi::Call;

verus! {

/// The standard descriptors' stats must be all zero; any that is not ends
/// the program.
pub fn stdio_filestat() -> (res: Script)
    ensures
        res@ == (ScriptView { ops: test_stdin_stdout_stderr_ops(), spaced: true, guard: Guard::Plain }),
{
    Script {
        ops: vec![
            must(Call::FdFilestatGet { fd: Slot::Fixed(0) }, "failed filestat 0"),
            assert_field(Field::Size, 0, false, "stdio size should be 0"),
            assert_field(Field::Atim, 0, false, "stdio atim should be 0"),
            assert_field(Field::Mtim, 0, false, "stdio mtim should be 0"),
            assert_field(Field::Ctim, 0, false, "stdio ctim should be 0"),
            must(Call::FdFilestatGet { fd: Slot::Fixed(1) }, "failed filestat 1"),
            assert_field(Field::Size, 0, false, "stdio size should be 0"),
            assert_field(Field::Atim, 0, false, "stdio atim should be 0"),
            assert_field(Field::Mtim, 0, false, "stdio mtim should be 0"),
            assert_field(Field::Ctim, 0, false, "stdio ctim should be 0"),
            must(Call::FdFilestatGet { fd: Slot::Fixed(2) }, "failed filestat 2"),
            assert_field(Field::Size, 0, false, "stdio size should be 0"),
            assert_field(Field::Atim, 0, false, "stdio atim should be 0"),
            assert_field(Field::Mtim, 0, false, "stdio mtim should be 0"),
            assert_field(Field::Ctim, 0, false, "stdio ctim should be 0"),
        ],
        spaced: true,
        guard: Guard::Plain,
    }
}

/// The engine that answers `path_open` under a file's descriptor with this
/// error: `ERRNO_NOTDIR` is wasmtime's answer, `ERRNO_INVAL` wasmer's.
pub fn notdir_engine(code: u16) -> (res: Option<&'static str>)
    ensures
        code == ERRNO_NOTDIR ==> res == Some("Wasmtime"),
        code == ERRNO_INVAL ==> res == Some("Wasmer"),
        code != ERRNO_NOTDIR && code != ERRNO_INVAL ==> res is None,
{
    if code == ERRNO_NOTDIR {
        Some("Wasmtime")
    } else if code == ERRNO_INVAL {
        Some("Wasmer")
    } else {
        None
    }
}

/// Whether `path_open` with `OFLAGS_EXCL` on an existing file answered
/// `ERRNO_EXIST`, as it should.
pub fn excl_refused(reply: &Reply) -> (res: bool)
    ensures
        res == (reply matches Reply::Error(e) && e.code == ERRNO_EXIST),
{
    match reply {
        Reply::Error(e) => e.code == ERRNO_EXIST,
        _ => false,
    }
}

/// The engine that a preopened descriptor points to, from its name and the
/// directory given to the program: wasmtime preopens that directory under
/// its own name; wasmer preopens a root at 3 (skipped: none) and the
/// directory, under another name, after it.
pub open spec fn engine_guess(fd: u32, name: Seq<u8>, arg: Seq<u8>) -> Option<&'static str> {
    if name == arg {
        Some("Wasmtime used")
    } else if fd == 3 {
        None
    } else {
        Some("Wasmer used")
    }
}

/// The engine that a preopened descriptor points to.
pub fn preopen_engine(fd: u32, name: &Vec<u8>, arg: &Vec<u8>) -> (res: Option<&'static str>)
    ensures
        res == engine_guess(fd, name@, arg@),
{
    let mut same = name.len() == arg.len();
    if same {
        let n = name.len();
        let mut i: usize = 0;
        while i < n
            invariant
                n == name@.len(),
                n == arg@.len(),
                i <= n,
                same == forall|j: int| 0 <= j < i ==> name@[j] == arg@[j],
            decreases n - i,
        {
            same = same && name[i] == arg[i];
            i = i + 1;
        }
        if same {
            assert(name@ =~= arg@);
        }
    }
    if same {
        Some("Wasmtime used")
    } else if fd == 3 {
        None
    } else {
        Some("Wasmer used")
    }
}

/// How the end-of-path program goes on after `fd_prestat_get` at a
/// descriptor: it reads the descriptor's name, of the length given; an error
/// ends its walk through the descriptors.
pub fn end_of_path_name_len(reply: &Reply) -> (res: Option<usize>)
    ensures
        reply matches Reply::Prestat(p) ==> res == Some(p.name_len),
        !(reply is Prestat) ==> res is None,
{
    match reply {
        Reply::Prestat(p) => Some(p.name_len),
        _ => None,
    }
}

/// What the end-of-path program says after `fd_prestat_dir_name` at a
/// descriptor: nothing when the name could not be read (it goes on to the
/// next descriptor); otherwise the engine that the name points to, if any.
pub fn end_of_path_report(fd: u32, reply: &Reply, arg: &Vec<u8>) -> (res: Option<&'static str>)
    ensures
        reply matches Reply::DirName(name) ==> res == engine_guess(fd, name@, arg@),
        !(reply is DirName) ==> res is None,
{
    match reply {
        Reply::DirName(name) => preopen_engine(fd, name, arg),
        _ => None,
    }
}

/// What the program says of `fd_prestat_get(0)`: wasmer accepts it; wasmtime
/// answers `ERRNO_BADF`, whose message is given.
pub fn prestat_zero_report(error_message: Option<&str>) -> (res: String)
    ensures
        error_message is None ==> res@ == "wasmer returns Ok(Prestat) for file descriptors 0, 1 and 2"@,
        error_message matches Some(m) ==> res@
            == "wasmtime returns wasi::ERRNO_BADF for file descriptors 0, 1 and 2\n                               \nError Message: "@
            + m@,
{
    match error_message {
        None => String::from_str("wasmer returns Ok(Prestat) for file descriptors 0, 1 and 2"),
        Some(m) => String::from_str(
            "wasmtime returns wasi::ERRNO_BADF for file descriptors 0, 1 and 2\n                               \nError Message: ",
        ).concat(m),
    }
}

} // verus!
