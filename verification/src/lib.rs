//! A generation-based fuzzer core for JavaScript engines: a typed
//! intermediate representation with incremental analyzers, a random program
//! builder, a lifter that lowers the representation to JavaScript text, and
//! the decision logic of the execution harness.

pub mod cmdlineoptions;
pub mod execution;
pub mod fuzzer;
pub mod ir;
pub mod jsruntime;
pub mod lifter;
pub mod profiles;
pub mod utils;
