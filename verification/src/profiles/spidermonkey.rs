//! The profile of SpiderMonkey.

use vstd::prelude::*;
use super::profile::{args_view, Profile};

verus! {

/// The arguments that SpiderMonkey is started with: the thresholds of its
/// compilers are lowered and its checks are switched on; where programs are
/// handed over in memory, it is told so.
pub open spec fn spidermonkey_args(repl: bool) -> Seq<Seq<char>> {
    seq![
        "--baseline-warmup-threshold=10"@,
        "--ion-warmup-threshold=100"@,
        "--ion-check-range-analysis"@,
        "--ion-extra-checks"@,
        "--fuzzing-safe"@,
    ] + (if repl {
        seq!["--reprl"@]
    } else {
        Seq::empty()
    })
}

/// The profile of SpiderMonkey.
pub struct SpidermonkeyProfile {
    pub args: Vec<&'static str>,
}

impl Profile for SpidermonkeyProfile {
    fn get_args(&self) -> (r: &Vec<&'static str>)
        ensures
            r@ == self.args@,
    {
        &self.args
    }
}

impl SpidermonkeyProfile {
    /// The profile for programs that are handed over in memory, if `repl`
    /// is set, or in files.
    pub fn new(repl: bool) -> (r: SpidermonkeyProfile)
        ensures
            args_view(r.args@) == spidermonkey_args(repl),
    {
        let mut args: Vec<&'static str> = Vec::new();
        args.push("--baseline-warmup-threshold=10");
        args.push("--ion-warmup-threshold=100");
        args.push("--ion-check-range-analysis");
        args.push("--ion-extra-checks");
        args.push("--fuzzing-safe");
        if repl {
            args.push("--reprl");
        }
        assert(args_view(args@) =~= spidermonkey_args(repl));
        SpidermonkeyProfile { args }
    }
}

} // verus!
