//! Running each program in a process of its own, which reads it from disk.

use vstd::prelude::*;
use vstd::string::*;
use super::execution::ReturnCode;
use crate::utils::text::{decimal, push_decimal};

verus! {

/// The signal that the alarm of a timed-out child raises.
pub const SIGALRM: i32 = 14;

/// How a child ended, from what the operating system tells of it: the
/// status it returned, if it returned one; else the signal that ended it,
/// where the signal of the alarm means that it ran out of time. A child of
/// which neither is known counts as ended by the signal 0.
pub open spec fn spec_classify_exit(code: Option<i32>, signal: Option<i32>) -> ReturnCode {
    match code {
        Some(code) => ReturnCode::Status(code),
        None => {
            let signal = match signal {
                Some(signal) => signal,
                None => 0,
            };
            if signal == SIGALRM {
                ReturnCode::Timeout
            } else {
                ReturnCode::Crash(signal)
            }
        },
    }
}

/// How a child ended, from what the operating system tells of it.
pub fn classify_exit(code: Option<i32>, signal: Option<i32>) -> (r: ReturnCode)
    ensures
        r == spec_classify_exit(code, signal),
{
    match code {
        Some(code) => ReturnCode::Status(code),
        None => {
            let signal = match signal {
                Some(signal) => signal,
                None => 0,
            };
            if signal == SIGALRM {
                ReturnCode::Timeout
            } else {
                ReturnCode::Crash(signal)
            }
        },
    }
}

/// The name of the file that the programs of one worker are written to.
pub open spec fn test_file_name(stamp: u64) -> Seq<char> {
    "tests/testfile_"@ + decimal(stamp as nat) + ".js"@
}

/// What is needed to run programs from disk: the path of the engine, its
/// arguments, the time that a run may take in seconds, and the name of the
/// file that programs are written to.
pub struct Spawn {
    pub path: String,
    pub args: Vec<&'static str>,
    pub timeout: u32,
    pub pname: String,
}

impl Spawn {
    /// A runner for the engine at `path`. The number `stamp` makes the name
    /// of its file.
    pub fn new(path: String, args: Vec<&'static str>, timeout: u32, stamp: u64) -> (r: Spawn)
        ensures
            r.path == path,
            r.args == args,
            r.timeout == timeout,
            r.pname@ == test_file_name(stamp),
    {
        let mut pname = "tests/testfile_".to_owned();
        push_decimal(&mut pname, stamp as u128);
        pname.append(".js");
        Spawn { path, args, timeout, pname }
    }
}

} // verus!
