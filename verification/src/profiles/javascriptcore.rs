//! The profile of JavaScriptCore.

use vstd::prelude::*;
use super::profile::{args_view, Profile};

verus! {

/// The arguments that JavaScriptCore is started with: its options are
/// validated, its compilers run on the main thread and start early; where
/// programs are handed over in memory, it is told so.
pub open spec fn javascriptcore_args(repl: bool) -> Seq<Seq<char>> {
    seq![
        "--validateOptions=true"@,
        "--useConcurrentJIT=false"@,
        "--thresholdForJITSoon=10"@,
        "--thresholdForJITAfterWarmUp=10"@,
        "--thresholdForOptimizeAfterWarmUp=100"@,
        "--thresholdForOptimizeAfterLongWarmUp=100"@,
        "--thresholdForOptimizeSoon=100"@,
        "--thresholdForFTLOptimizeAfterWarmUp=1000"@,
        "--thresholdForFTLOptimizeSoon=1000"@,
    ] + (if repl {
        seq!["--reprl"@]
    } else {
        Seq::empty()
    })
}

/// The profile of JavaScriptCore.
pub struct JavaScriptCoreProfile {
    pub args: Vec<&'static str>,
}

impl Profile for JavaScriptCoreProfile {
    fn get_args(&self) -> (r: &Vec<&'static str>)
        ensures
            r@ == self.args@,
    {
        &self.args
    }
}

impl JavaScriptCoreProfile {
    /// The profile for programs that are handed over in memory, if `repl`
    /// is set, or in files.
    pub fn new(repl: bool) -> (r: JavaScriptCoreProfile)
        ensures
            args_view(r.args@) == javascriptcore_args(repl),
    {
        let mut args: Vec<&'static str> = Vec::new();
        args.push("--validateOptions=true");
        args.push("--useConcurrentJIT=false");
        args.push("--thresholdForJITSoon=10");
        args.push("--thresholdForJITAfterWarmUp=10");
        args.push("--thresholdForOptimizeAfterWarmUp=100");
        args.push("--thresholdForOptimizeAfterLongWarmUp=100");
        args.push("--thresholdForOptimizeSoon=100");
        args.push("--thresholdForFTLOptimizeAfterWarmUp=1000");
        args.push("--thresholdForFTLOptimizeSoon=1000");
        if repl {
            args.push("--reprl");
        }
        assert(args_view(args@) =~= javascriptcore_args(repl));
        JavaScriptCoreProfile { args }
    }
}

} // verus!
