use zebra::cmdlineoptions::{parse_u8, CmdLineError, CmdLineOptions, Parsed};
use zebra::execution::execution::{Execution, ReturnCode};
use zebra::fuzzer::fuzz_globals::FuzzGlobals;
use zebra::fuzzer::fuzzer::{
    crash_file, crash_text, engine_args, Fuzzer, Step, REPORT_INTERVEL,
};
use zebra::fuzzer::settings::{basic_generators, generators, Generator};
use zebra::fuzzer::stats::Stats;
use zebra::fuzzer::interesting::interesting_ints;
use zebra::jsruntime::jsruntime::JSRuntime;
use zebra::profiles::javascriptcore::JavaScriptCoreProfile;
use zebra::profiles::profile::Profile;
use zebra::profiles::spidermonkey::SpidermonkeyProfile;
use zebra::utils::random::Random;

fn args(list: &[&str]) -> Vec<String> {
    list.iter().map(|s| s.to_string()).collect()
}

fn run(list: &[&str]) -> CmdLineOptions {
    match CmdLineOptions::parse(args(list)).0 {
        Parsed::Run(options) => options,
        _ => panic!("the arguments were not accepted"),
    }
}

fn fail(list: &[&str]) -> CmdLineError {
    match CmdLineOptions::parse(args(list)).0 {
        Parsed::Fail(e) => e,
        _ => panic!("the arguments were accepted"),
    }
}

#[test]
fn defaults() {
    let o = run(&["zebra"]);
    assert!(!o.dry_run);
    assert!(!o.disk);
    assert_eq!(o.threads, 1);
    assert_eq!(o.timeout, 5);
    assert_eq!(o.filename, CmdLineOptions::default().filename);
}

#[test]
fn flags() {
    let o = run(&["zebra", "--dry-run", "-d", "-j", "4", "-f", "/bin/js", "--timeout", "9"]);
    assert!(o.dry_run);
    assert!(o.disk);
    assert_eq!(o.threads, 4);
    assert_eq!(o.filename, "/bin/js");
    assert_eq!(o.timeout, 9);
    let o = run(&["zebra", "--disk", "--jobs", "255", "--file", "-d", "-t", "0"]);
    assert!(o.disk);
    assert_eq!(o.threads, 255);
    assert_eq!(o.filename, "-d");
    assert_eq!(o.timeout, 0);
}

#[test]
fn unknown_arguments_are_reported_and_passed_over() {
    let (parsed, unknown) = CmdLineOptions::parse(args(&["zebra", "--what", "-d", "x"]));
    assert!(matches!(parsed, Parsed::Run(o) if o.disk));
    assert_eq!(unknown, vec!["--what", "x"]);
}

#[test]
fn help_ends_the_parsing() {
    let (parsed, unknown) = CmdLineOptions::parse(args(&["zebra", "a", "-h", "-j"]));
    assert!(matches!(parsed, Parsed::Help));
    assert_eq!(unknown, vec!["a"]);
    assert!(matches!(CmdLineOptions::parse(args(&["zebra", "--help"])).0, Parsed::Help));
    assert!(CmdLineOptions::help().contains("Usage: ./zebra [OPTIONS]"));
}

#[test]
fn errors() {
    assert_eq!(fail(&["zebra", "-f"]), CmdLineError::MissingFilename);
    assert_eq!(fail(&["zebra", "--jobs"]), CmdLineError::MissingJobs);
    assert_eq!(fail(&["zebra", "-j", "many"]), CmdLineError::InvalidJobs);
    assert_eq!(fail(&["zebra", "-j", "256"]), CmdLineError::InvalidJobs);
    assert_eq!(fail(&["zebra", "-t"]), CmdLineError::MissingTimeout);
    assert_eq!(fail(&["zebra", "-t", "-1"]), CmdLineError::InvalidTimeout);
    assert_eq!(fail(&["zebra", "-t", ""]), CmdLineError::InvalidTimeout);
    assert_eq!(CmdLineError::MissingFilename.message(), "Please specify the filename");
}

#[test]
fn numbers_from_0_to_255() {
    for n in 0..=255u32 {
        assert_eq!(parse_u8(&n.to_string()), Some(n as u8));
    }
    for text in ["", "+", "-0", "256", "1000", "12a", " 1", "1 ", "99999999999999999999", "٣"] {
        assert_eq!(parse_u8(text), None);
        assert!(text.parse::<u8>().is_err());
    }
    for text in ["+7", "007", "+000255"] {
        assert_eq!(parse_u8(text), text.parse::<u8>().ok());
    }
}

#[test]
fn stats_count_runs() {
    let mut s = Stats::new();
    assert_eq!(s.record(ReturnCode::Status(0)), None);
    assert_eq!(s.record(ReturnCode::Status(1)), None);
    assert_eq!(s.record(ReturnCode::Timeout), None);
    assert_eq!(s.record(ReturnCode::Crash(11)), Some(11));
    assert_eq!(s, Stats { iter: 4, crashes: 1, timeouts: 1, incorrect: 1 });
    let mut total = Stats { iter: 10, crashes: 2, timeouts: 3, incorrect: 4 };
    total.update(&s);
    assert_eq!(total, Stats { iter: 14, crashes: 3, timeouts: 4, incorrect: 5 });
    s.reset();
    assert_eq!(s, Stats::default());
}

#[test]
fn globals_add_up() {
    let mut g = FuzzGlobals::new(
        "test".to_string(),
        CmdLineOptions::default(),
        JSRuntime::new(),
    );
    g.update(&Stats { iter: 10, crashes: 1, timeouts: 0, incorrect: 2 });
    g.update(&Stats { iter: 10, crashes: 0, timeouts: 5, incorrect: 0 });
    assert_eq!(g.stats, Stats { iter: 20, crashes: 1, timeouts: 5, incorrect: 2 });
    assert_eq!(g.program_name, "test");
}

#[test]
fn crash_files() {
    assert_eq!(crash_file(3, 17, 99), "crashes/crash.3.17.99.js");
    assert_eq!(
        crash_text(&"var v0 = 1;\n".to_string(), 11),
        "var v0 = 1;\n\n\n// Crash with Signal: 11\n"
    );
    assert_eq!(REPORT_INTERVEL, 10);
}

#[test]
fn profiles() {
    assert_eq!(
        SpidermonkeyProfile::new(true).get_args(),
        &vec![
            "--baseline-warmup-threshold=10",
            "--ion-warmup-threshold=100",
            "--ion-check-range-analysis",
            "--ion-extra-checks",
            "--fuzzing-safe",
            "--reprl",
        ]
    );
    assert_eq!(SpidermonkeyProfile::new(false).get_args().len(), 5);
    assert_eq!(JavaScriptCoreProfile::new(false).get_args().len(), 9);
    assert_eq!(JavaScriptCoreProfile::new(true).get_args().last(), Some(&"--reprl"));
    assert_eq!(engine_args(true).len(), 5);
    assert_eq!(engine_args(false).last(), Some(&"--reprl"));
}

#[test]
fn generator_tables() {
    assert_eq!(basic_generators().len(), 5);
    assert_eq!(basic_generators()[4], Generator::IntegerLiteral);
    let all = generators();
    assert_eq!(all.len(), 29);
    assert_eq!(all[0], (Generator::CreateObject, 30));
    assert_eq!(all[2], (Generator::LoadBuiltin, 50));
    assert_eq!(all.iter().map(|g| g.1 as u32).sum::<u32>(), 616);
    assert_eq!(interesting_ints().len(), 61);
    assert_eq!(interesting_ints()[0], -9007199254740993);
    assert_eq!(interesting_ints()[60], 9007199254740993);
}

struct Scripted {
    codes: Vec<ReturnCode>,
    programs: Vec<String>,
}

impl Execution for Scripted {
    fn execute(&mut self, input: &String) -> ReturnCode {
        self.programs.push(input.clone());
        self.codes.remove(0)
    }
}

#[test]
fn a_worker_counts_and_saves_crashes() {
    let rt = JSRuntime::new();
    let script = Scripted {
        codes: vec![ReturnCode::Status(0), ReturnCode::Crash(11), ReturnCode::Timeout],
        programs: vec![],
    };
    let mut worker = Fuzzer::new(2, script, Random::new(5, 1));
    let (code, saved) = worker.fuzz_one(&rt, Random::new(1, 1), Random::new(2, 1), 77);
    assert_eq!(code, ReturnCode::Status(0));
    assert!(saved.is_none());
    let (code, saved) = worker.fuzz_one(&rt, Random::new(3, 1), Random::new(4, 1), 78);
    assert_eq!(code, ReturnCode::Crash(11));
    let crash = saved.unwrap();
    assert_eq!(crash.name, "crashes/crash.2.1.78.js");
    assert_eq!(
        crash.text,
        format!("{}\n\n// Crash with Signal: 11\n", worker.runner.programs[1])
    );
    assert!(worker.fuzz_one(&rt, Random::new(5, 1), Random::new(6, 1), 79).1.is_none());
    assert_eq!(worker.stats, Stats { iter: 3, crashes: 1, timeouts: 1, incorrect: 0 });
    assert_eq!(worker.runner.programs.len(), 3);
    assert!(worker.runner.programs.iter().all(|p| p.lines().count() >= 5));
    assert_eq!(worker.report(), Stats { iter: 3, crashes: 1, timeouts: 1, incorrect: 0 });
    assert_eq!(worker.stats, Stats::default());
}

#[test]
fn a_worker_reports_after_every_tenth_run() {
    let rt = JSRuntime::new();
    let script = Scripted { codes: vec![ReturnCode::Status(0); 10], programs: vec![] };
    let mut worker = Fuzzer::new(0, script, Random::new(5, 1));
    for k in 1..=REPORT_INTERVEL {
        worker.fuzz_one(&rt, Random::new(k, 1), Random::new(k + 20, 1), k);
        assert_eq!(
            worker.fuzzloop(false),
            if k < 10 {
                Step::Run
            } else {
                Step::Report
            }
        );
        assert_eq!(worker.fuzzloop(true), Step::Stop);
    }
    assert_eq!(worker.report().iter, 10);
    assert_eq!(worker.fuzzloop(false), Step::Run);
}
