//! The outcome of running a program.

use vstd::prelude::*;

verus! {

/// How the target ended: it ran out of time, it was ended by the signal of
/// the given number, or it returned the given status.
#[derive(Clone, Copy, Debug, PartialEq, Eq, Structural)]
pub enum ReturnCode {
    Timeout,
    Crash(i32),
    Status(i32),
}

/// Something that runs a program under the target engine.
pub trait Execution {
    /// Runs the program `input` and tells how the target ended.
    fn execute(&mut self, input: &String) -> ReturnCode;
}

} // verus!
