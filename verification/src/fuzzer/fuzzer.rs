//! The work of one worker: generate a program, lower it, run it, count.

use vstd::prelude::*;
use vstd::string::*;
use super::stats::Stats;
use crate::execution::execution::{Execution, ReturnCode};
use crate::ir::codegenerators::spec_generate;
use crate::ir::program::{Program, ProgramView};
use crate::jsruntime::jsruntime::{JSRuntime, JSRuntimeView};
use crate::lifter::lifter::{lift_all, Lifter, LifterView};
use crate::profiles::profile::args_view;
use crate::profiles::spidermonkey::{spidermonkey_args, SpidermonkeyProfile};
use crate::utils::probablity::Probablity;
use crate::utils::random::Random;
use crate::utils::text::{decimal, push_decimal, push_signed_decimal, signed_decimal};

verus! {

/// The number of runs after which a worker reports its counts.
pub const REPORT_INTERVEL: u64 = 10;

/// The number of instructions or blocks that a program is grown by.
pub const PROGRAM_SIZE: u8 = 5;

/// The arguments that the engine is started with: those of SpiderMonkey,
/// for programs handed over in files if `disk` is set and in memory
/// otherwise.
pub fn engine_args(disk: bool) -> (r: Vec<&'static str>)
    ensures
        args_view(r@) == spidermonkey_args(!disk),
{
    SpidermonkeyProfile::new(!disk).args
}

/// The name of the file that a program is saved to after a crash: the
/// worker, the number of its runs so far and a number that makes the name
/// new.
pub open spec fn crash_file_name(id: u8, iter: u64, stamp: u64) -> Seq<char> {
    "crashes/crash."@ + decimal(id as nat) + "."@ + decimal(iter as nat) + "."@ + decimal(
        stamp as nat,
    ) + ".js"@
}

/// What is saved after a crash: the program, and the signal in a comment.
pub open spec fn crash_report(code: Seq<char>, signal: i32) -> Seq<char> {
    code + "\n\n// Crash with Signal: "@ + signed_decimal(signal as int) + "\n"@
}

/// The name of the file that a program is saved to after a crash.
pub fn crash_file(id: u8, iter: u64, stamp: u64) -> (r: String)
    ensures
        r@ == crash_file_name(id, iter, stamp),
{
    let mut name = "crashes/crash.".to_owned();
    push_decimal(&mut name, id as u128);
    name.append(".");
    push_decimal(&mut name, iter as u128);
    name.append(".");
    push_decimal(&mut name, stamp as u128);
    name.append(".js");
    name
}

/// What is saved after a crash.
pub fn crash_text(code: &String, signal: i32) -> (r: String)
    ensures
        r@ == crash_report(code@, signal),
{
    let mut text = code.clone();
    text.append("\n\n// Crash with Signal: ");
    push_signed_decimal(&mut text, signal as i128);
    text.append("\n");
    text
}

/// What is saved of a run that ended with `code`, if anything: after a
/// crash, the text of the program with the signal, under a name made of
/// the worker, the number of its runs before this one, and `stamp`.
pub open spec fn saved(
    id: u8,
    iter: u64,
    text: Seq<char>,
    code: ReturnCode,
    stamp: u64,
) -> Option<(Seq<char>, Seq<char>)> {
    match code {
        ReturnCode::Crash(signal) => Some(
            (crash_file_name(id, iter, stamp), crash_report(text, signal)),
        ),
        _ => None,
    }
}

/// The text of the program that is generated for the runtime from the
/// given states of the sources of numbers and decisions, as a lifter of
/// the given value lowers it.
pub open spec fn generated_text(
    runtime: JSRuntimeView,
    rng: u64,
    prob: u64,
    lifter: LifterView,
) -> LifterView {
    let program = spec_generate(ProgramView::fresh(runtime, rng, prob), PROGRAM_SIZE);
    lift_all(
        LifterView { code: Seq::empty(), ..lifter },
        program.insts,
        program.insts.len() as int,
    )
}

/// A program that crashed the engine: the name of the file to save it to,
/// and what to save.
pub struct CrashFile {
    pub name: String,
    pub text: String,
}

/// What a worker does after a run.
#[derive(Clone, Copy, Debug, PartialEq, Eq, Structural)]
pub enum Step {
    /// It runs the next program.
    Run,
    /// It adds its counts to the shared ones, sets them to zero and runs
    /// the next program.
    Report,
    /// It ends.
    Stop,
}

/// What a worker does after a run, `runs` runs after its last report: it
/// ends after the first run of a dry run; otherwise it reports after every
/// tenth run.
pub open spec fn spec_fuzzloop(runs: u64, dry_run: bool) -> Step {
    if dry_run {
        Step::Stop
    } else if runs >= REPORT_INTERVEL {
        Step::Report
    } else {
        Step::Run
    }
}

/// A worker: its number, its counts, its lifter, and what it runs programs
/// with.
pub struct Fuzzer<E: Execution> {
    pub id: u8,
    pub stats: Stats,
    pub lifter: Lifter,
    pub runner: E,
}

impl<E: Execution> Fuzzer<E> {
    /// The worker is ready for a run: its lifter is not indented and its
    /// counts have room.
    pub open spec fn wf(&self) -> bool {
        &&& self.lifter@.indent == 0
        &&& self.stats.iter < u64::MAX
        &&& self.stats.crashes < u64::MAX
        &&& self.stats.timeouts < u64::MAX
        &&& self.stats.incorrect < u64::MAX
    }

    /// The worker with the number `id`, which runs programs with `exec_with`.
    /// The decisions of its lifter draw from `rng`.
    pub fn new(id: u8, exec_with: E, rng: Random) -> (r: Fuzzer<E>)
        ensures
            r.wf(),
            r.id == id,
            r.runner == exec_with,
            r.stats == (Stats { iter: 0, crashes: 0, timeouts: 0, incorrect: 0 }),
            r.lifter@.code == Seq::<char>::empty(),
            r.lifter@.rng == rng.0,
    {
        Fuzzer { id, stats: Stats::new(), lifter: Lifter::new(rng), runner: exec_with }
    }

    /// Counts a run of the text that the lifter holds, which ended with
    /// `code`, and returns what is to be saved of it.
    pub fn conclude(&mut self, code: ReturnCode, stamp: u64) -> (r: Option<CrashFile>)
        requires
            old(self).wf(),
        ensures
            final(self).stats == old(self).stats.recorded(code),
            final(self).id == old(self).id,
            final(self).lifter == old(self).lifter,
            final(self).runner == old(self).runner,
            (match r {
                Some(file) => Some((file.name@, file.text@)),
                None => None,
            }) == saved(old(self).id, old(self).stats.iter, old(self).lifter@.code, code, stamp),
    {
        let iter = self.stats.iter;
        match self.stats.record(code) {
            Some(signal) => {
                let name = crash_file(self.id, iter, stamp);
                let text = crash_text(self.lifter.get_code(), signal);
                Some(CrashFile { name, text })
            },
            None => None,
        }
    }

    /// One run: a program is generated for the runtime, with the given
    /// sources of numbers and decisions; it is lowered; the text is run;
    /// the run is counted. How the engine ended is returned, and what is to
    /// be saved where it crashed; `stamp` makes the name of the file.
    pub fn fuzz_one(&mut self, runtime: &JSRuntime, rng: Random, prob: Random, stamp: u64) -> (r: (
        ReturnCode,
        Option<CrashFile>,
    ))
        requires
            old(self).wf(),
        ensures
            final(self).id == old(self).id,
            final(self).lifter@ == generated_text(
                runtime@,
                rng.0,
                prob.0,
                old(self).lifter@,
            ),
            final(self).lifter@.indent == 0,
            final(self).stats == old(self).stats.recorded(r.0),
            (match r.1 {
                Some(file) => Some((file.name@, file.text@)),
                None => None,
            }) == saved(
                old(self).id,
                old(self).stats.iter,
                final(self).lifter@.code,
                r.0,
                stamp,
            ),
    {
        let mut program = Program::new(runtime, rng, Probablity::new(prob));
        self.lifter.reset();
        program.generate_random_insts(PROGRAM_SIZE);
        self.lifter.do_lifting(program);
        self.lifter.finalize();
        let code = self.runner.execute(self.lifter.get_code());
        let saved = self.conclude(code, stamp);
        (code, saved)
    }

    /// What the worker does after a run. Its counts tell the number of
    /// runs since its last report.
    pub fn fuzzloop(&self, dry_run: bool) -> (r: Step)
        ensures
            r == spec_fuzzloop(self.stats.iter, dry_run),
    {
        if dry_run {
            Step::Stop
        } else if self.stats.iter >= REPORT_INTERVEL {
            Step::Report
        } else {
            Step::Run
        }
    }

    /// The counts of the worker since its last report, which are set to
    /// zero.
    pub fn report(&mut self) -> (r: Stats)
        requires
            old(self).lifter@.indent == 0,
        ensures
            r == old(self).stats,
            final(self).wf(),
            final(self).stats == (Stats { iter: 0, crashes: 0, timeouts: 0, incorrect: 0 }),
            final(self).id == old(self).id,
            final(self).lifter == old(self).lifter,
    {
        let r = self.stats;
        self.stats.reset();
        r
    }
}

/// Generation is determined by its inputs: for the same runtime, the same
/// states of the sources of numbers and decisions and lifters of the same
/// value, the same program is generated and the same text is emitted.
pub proof fn lemma_generation_is_determined(
    runtime: JSRuntimeView,
    rng: u64,
    prob: u64,
    lifter: LifterView,
    other_runtime: JSRuntimeView,
    other_rng: u64,
    other_prob: u64,
    other_lifter: LifterView,
)
    requires
        runtime == other_runtime,
        rng == other_rng,
        prob == other_prob,
        lifter == other_lifter,
    ensures
        spec_generate(ProgramView::fresh(runtime, rng, prob), PROGRAM_SIZE) == spec_generate(
            ProgramView::fresh(other_runtime, other_rng, other_prob),
            PROGRAM_SIZE,
        ),
        generated_text(runtime, rng, prob, lifter).code == generated_text(
            other_runtime,
            other_rng,
            other_prob,
            other_lifter,
        ).code,
{
}

} // verus!
