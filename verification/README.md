# wasi_tests

A test suite for the WebAssembly System Interface (snapshot preview 1):
programs that exercise `path_open`, `fd_allocate`, `fd_fdstat_get`,
`fd_fdstat_set_rights`, `fd_filestat_get`, `fd_prestat_get`,
`fd_prestat_dir_name`, `path_create_directory` and `path_unlink_file`
under an engine (wasmtime or wasmer), and a runner that starts them.

- `src/` is the library, verified with Verus. A test is a script: the calls
  it makes, what it expects of each answer, and the checks on the values it
  reads. `Run` takes the answers one by one and says what comes next and how
  the test ends; `Scan` finds a preopened directory; `Session` combines the
  results of a program's tests; `engine` builds the engine's command line and
  counts the programs that failed. `laws` states what holds of every run.
- `app/` makes the WASI calls (they are `unsafe` functions of the `wasi`
  crate), feeds their answers to the library, and does the process and
  console work. One binary acts as the program it is named after.
- `tests/` runs the library on concrete answers.
