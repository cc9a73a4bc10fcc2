//! The settings and the statistics of the fuzzer, and the work of one
//! worker.

pub mod fuzz_globals;
pub mod fuzzer;
pub mod interesting;
pub mod settings;
pub mod stats;
