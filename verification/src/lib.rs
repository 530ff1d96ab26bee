//! A WASI conformance test suite, with its decisions verified.
//!
//! Each test program is a script of WASI calls, with what it expects of
//! each answer and the checks it makes on the values it gets
//! ([`script`], [`programs`]); [`run::Run`] decides, answer by answer, what
//! a test does next and how it ends. [`scan::Scan`] searches the preopened
//! descriptors. [`suite`] strings the tests of a program together, and
//! [`engine`] holds the host side: how an engine runs a program, and the
//! tally of results. The calls themselves are made by the caller, which
//! hands each answer back as plain values ([`abi`]). [`laws`] states what
//! holds of every run and every scan, and [`outcomes`] what each test
//! concludes from the answers a host may give.

pub mod abi;
pub mod console;
pub mod decimal;
pub mod engine;
pub mod laws;
pub mod outcomes;
pub mod probes;
pub mod programs;
pub mod run;
pub mod scan;
pub mod script;
pub mod suite;
