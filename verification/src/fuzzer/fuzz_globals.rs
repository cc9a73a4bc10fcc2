//! What the workers of a fuzzer have in common.

use vstd::prelude::*;
use super::stats::Stats;
use crate::cmdlineoptions::CmdLineOptions;
use crate::jsruntime::jsruntime::JSRuntime;

verus! {

/// What stays the same during fuzzing, and the counts of all workers: the
/// name of the program, the options it was started with, the description
/// of the runtime.
pub struct FuzzGlobals {
    pub program_name: String,
    pub cmdline: CmdLineOptions,
    pub stats: Stats,
    pub jsruntime: JSRuntime,
}

impl FuzzGlobals {
    /// The globals of a fuzzer that has not run yet.
    pub fn new(name: String, cmdline: CmdLineOptions, jsruntime: JSRuntime) -> (r: FuzzGlobals)
        ensures
            r.program_name == name,
            r.cmdline == cmdline,
            r.jsruntime == jsruntime,
            r.stats == (Stats { iter: 0, crashes: 0, timeouts: 0, incorrect: 0 }),
    {
        FuzzGlobals { program_name: name, cmdline, stats: Stats::new(), jsruntime }
    }

    /// Adds the counts of a worker to the counts of all.
    pub fn update(&mut self, stats: &Stats)
        requires
            old(self).stats.can_add(stats),
        ensures
            final(self).stats.iter == old(self).stats.iter + stats.iter,
            final(self).stats.crashes == old(self).stats.crashes + stats.crashes,
            final(self).stats.timeouts == old(self).stats.timeouts + stats.timeouts,
            final(self).stats.incorrect == old(self).stats.incorrect + stats.incorrect,
            final(self).program_name == old(self).program_name,
            final(self).cmdline == old(self).cmdline,
            final(self).jsruntime == old(self).jsruntime,
    {
        self.stats.update(stats);
    }
}

} // verus!
