//! The harness that runs generated programs under the target engine: the
//! outcomes of a run, and the decisions of the two ways of running one. A
//! long-lived child is driven over two control pipes and a shared memory
//! region; or a new process is spawned for each program, which is read
//! from disk.

pub mod execution;
pub mod ffi;
pub mod repl;
pub mod spawn;
