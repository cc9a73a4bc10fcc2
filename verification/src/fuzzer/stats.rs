//! The counts that a worker keeps of its runs.

use vstd::prelude::*;
use crate::execution::execution::ReturnCode;

verus! {

/// The number of runs, and of those among them that crashed, timed out
/// or returned a status other than zero.
#[derive(Clone, Copy, Debug, Default, PartialEq, Eq, Structural)]
pub struct Stats {
    pub iter: u64,
    pub crashes: u64,
    pub timeouts: u64,
    pub incorrect: u64,
}

impl Stats {
    /// The counts of no runs.
    pub fn new() -> (r: Stats)
        ensures
            r == (Stats { iter: 0, crashes: 0, timeouts: 0, incorrect: 0 }),
    {
        Stats { iter: 0, crashes: 0, timeouts: 0, incorrect: 0 }
    }

    /// Sets every count to zero.
    pub fn reset(&mut self)
        ensures
            *final(self) == (Stats { iter: 0, crashes: 0, timeouts: 0, incorrect: 0 }),
    {
        self.iter = 0;
        self.crashes = 0;
        self.timeouts = 0;
        self.incorrect = 0;
    }

    /// Tells whether the counts of `other` can be added without overflow.
    pub open spec fn can_add(&self, other: &Stats) -> bool {
        &&& self.iter + other.iter <= u64::MAX
        &&& self.crashes + other.crashes <= u64::MAX
        &&& self.timeouts + other.timeouts <= u64::MAX
        &&& self.incorrect + other.incorrect <= u64::MAX
    }

    /// Adds the counts of `other`.
    pub fn update(&mut self, other: &Stats)
        requires
            old(self).can_add(other),
        ensures
            final(self).iter == old(self).iter + other.iter,
            final(self).crashes == old(self).crashes + other.crashes,
            final(self).timeouts == old(self).timeouts + other.timeouts,
            final(self).incorrect == old(self).incorrect + other.incorrect,
    {
        self.iter = self.iter + other.iter;
        self.crashes = self.crashes + other.crashes;
        self.timeouts = self.timeouts + other.timeouts;
        self.incorrect = self.incorrect + other.incorrect;
    }

    /// The counts after a run that ended with `code`: one more run; and
    /// one more timeout, crash or incorrect run as the case may be, a run
    /// being incorrect where it returned a status other than zero.
    pub open spec fn recorded(self, code: ReturnCode) -> Stats {
        Stats {
            iter: (self.iter + 1) as u64,
            crashes: if code is Crash {
                (self.crashes + 1) as u64
            } else {
                self.crashes
            },
            timeouts: if code is Timeout {
                (self.timeouts + 1) as u64
            } else {
                self.timeouts
            },
            incorrect: if code matches ReturnCode::Status(s) && s != 0 {
                (self.incorrect + 1) as u64
            } else {
                self.incorrect
            },
        }
    }

    /// Counts a run that ended with `code`, and returns the signal if it
    /// crashed: the program is then to be saved.
    pub fn record(&mut self, code: ReturnCode) -> (r: Option<i32>)
        requires
            old(self).iter < u64::MAX,
            old(self).crashes < u64::MAX,
            old(self).timeouts < u64::MAX,
            old(self).incorrect < u64::MAX,
        ensures
            *final(self) == old(self).recorded(code),
            r == match code {
                ReturnCode::Crash(signal) => Some(signal),
                _ => None,
            },
    {
        let mut saved: Option<i32> = None;
        match code {
            ReturnCode::Timeout => {
                self.timeouts = self.timeouts + 1;
            },
            ReturnCode::Status(status) => {
                if status != 0 {
                    self.incorrect = self.incorrect + 1;
                }
            },
            ReturnCode::Crash(signal) => {
                saved = Some(signal);
                self.crashes = self.crashes + 1;
            },
        }
        self.iter = self.iter + 1;
        saved
    }
}

} // verus!
