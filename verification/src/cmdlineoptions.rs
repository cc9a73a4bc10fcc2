//! The options that the fuzzer is started with.

use vstd::prelude::*;
use vstd::string::*;

verus! {

/// The path of the engine that is fuzzed where none is given.
pub open spec fn default_filename() -> Seq<char> {
    "/home/vignesh/Documents/exploits/temp/webkit_new_source/WebKit/FuzzBuild/Debug/bin/jsc"@
}

/// The options of a run of the fuzzer.
pub struct CmdLineOptions {
    /// Generate one program, print it, run it, and stop.
    pub dry_run: bool,
    /// The number of workers.
    pub threads: u8,
    /// The path of the engine that is fuzzed.
    pub filename: String,
    /// The time that a run of the engine may take, in seconds.
    pub timeout: u8,
    /// Hand the programs to the engine in files.
    pub disk: bool,
}

/// The mathematical value of `CmdLineOptions`.
pub ghost struct CmdLineOptionsView {
    pub dry_run: bool,
    pub threads: u8,
    pub filename: Seq<char>,
    pub timeout: u8,
    pub disk: bool,
}

impl View for CmdLineOptions {
    type V = CmdLineOptionsView;

    open spec fn view(&self) -> CmdLineOptionsView {
        CmdLineOptionsView {
            dry_run: self.dry_run,
            threads: self.threads,
            filename: self.filename@,
            timeout: self.timeout,
            disk: self.disk,
        }
    }
}

impl CmdLineOptionsView {
    /// The options of a run that is given none: one worker, five seconds
    /// for each run of the engine, programs handed over in memory.
    pub open spec fn default() -> CmdLineOptionsView {
        CmdLineOptionsView {
            dry_run: false,
            threads: 1,
            filename: default_filename(),
            timeout: 5,
            disk: false,
        }
    }
}

impl Default for CmdLineOptions {
    fn default() -> (r: CmdLineOptions)
        ensures
            r@ == CmdLineOptionsView::default(),
    {
        CmdLineOptions {
            dry_run: false,
            threads: 1,
            filename: "/home/vignesh/Documents/exploits/temp/webkit_new_source/WebKit/FuzzBuild/Debug/bin/jsc".to_owned(),
            timeout: 5,
            disk: false,
        }
    }
}

/// What is wrong with the arguments.
#[derive(Clone, Copy, Debug, PartialEq, Eq, Structural)]
pub enum CmdLineError {
    /// The flag for the engine's path is the last argument.
    MissingFilename,
    /// The number of jobs is not a number from 0 to 255.
    InvalidJobs,
    /// The flag for the number of jobs is the last argument.
    MissingJobs,
    /// The timeout is not a number from 0 to 255.
    InvalidTimeout,
    /// The flag for the timeout is the last argument.
    MissingTimeout,
}

impl CmdLineError {
    /// The error in words.
    pub fn message(&self) -> (r: &'static str)
        ensures
            r@ == match *self {
                CmdLineError::MissingFilename => "Please specify the filename"@,
                CmdLineError::InvalidJobs => "Please specify a valid number for the no.of jobs"@,
                CmdLineError::MissingJobs => "Please specify thenumber of jobs"@,
                CmdLineError::InvalidTimeout => "Please specify a valid numberfor the timeout"@,
                CmdLineError::MissingTimeout => "Please specify the timeout valuein seconds"@,
            },
    {
        match *self {
            CmdLineError::MissingFilename => "Please specify the filename",
            CmdLineError::InvalidJobs => "Please specify a valid number for the no.of jobs",
            CmdLineError::MissingJobs => "Please specify thenumber of jobs",
            CmdLineError::InvalidTimeout => "Please specify a valid numberfor the timeout",
            CmdLineError::MissingTimeout => "Please specify the timeout valuein seconds",
        }
    }
}

/// The value of a decimal digit, if the character is one.
pub open spec fn digit_value(c: char) -> Option<nat> {
    if '0' <= c <= '9' {
        Some((c as nat - '0' as nat) as nat)
    } else {
        None
    }
}

/// The number that a string of decimal digits stands for, if it is one.
/// The empty string stands for zero.
pub open spec fn digits_value(s: Seq<char>) -> Option<nat>
    decreases s.len(),
{
    if s.len() == 0 {
        Some(0)
    } else {
        match (digits_value(s.drop_last()), digit_value(s.last())) {
            (Some(v), Some(d)) => Some(v * 10 + d),
            _ => None,
        }
    }
}

/// The number from 0 to 255 that a string stands for: an optional plus
/// sign and at least one decimal digit.
pub open spec fn spec_parse_u8(s: Seq<char>) -> Option<u8> {
    let body = if s.len() > 0 && s[0] == '+' {
        s.subrange(1, s.len() as int)
    } else {
        s
    };
    if body.len() == 0 {
        None
    } else {
        match digits_value(body) {
            Some(v) => if v <= 255 {
                Some(v as u8)
            } else {
                None
            },
            None => None,
        }
    }
}

/// A string of digits that has a prefix above 255 stands for a number
/// above 255.
proof fn lemma_digits_grow(s: Seq<char>, n: int)
    requires
        0 <= n <= s.len(),
        digits_value(s) is Some,
    ensures
        digits_value(s.subrange(0, n)) is Some,
        digits_value(s.subrange(0, n))->0 <= digits_value(s)->0,
    decreases s.len() - n,
{
    if n < s.len() {
        assert(s.drop_last().subrange(0, n) =~= s.subrange(0, n));
        lemma_digits_grow(s.drop_last(), n);
    } else {
        assert(s.subrange(0, n) =~= s);
    }
}

/// A string with a prefix that is not made of digits is not made of
/// digits.
proof fn lemma_digits_prefix(s: Seq<char>, n: int)
    requires
        0 <= n <= s.len(),
        digits_value(s.subrange(0, n)) is None,
    ensures
        digits_value(s) is None,
    decreases s.len() - n,
{
    if n < s.len() {
        assert(s.drop_last().subrange(0, n) =~= s.subrange(0, n));
        lemma_digits_prefix(s.drop_last(), n);
    } else {
        assert(s.subrange(0, n) =~= s);
    }
}

/// The number from 0 to 255 that a string stands for.
pub fn parse_u8(s: &str) -> (r: Option<u8>)
    ensures
        r == spec_parse_u8(s@),
{
    let len = s.unicode_len();
    let start: usize = if len > 0 && s.get_char(0) == '+' {
        1
    } else {
        0
    };
    if start == len {
        return None;
    }
    let ghost body = s@.subrange(start as int, len as int);
    proof {
        if start == 0 {
            assert(body =~= s@);
        }
    }
    let mut value: u32 = 0;
    let mut i: usize = start;
    assert(body.subrange(0, 0) =~= Seq::<char>::empty());
    while i < len
        invariant
            start <= i <= len,
            len == s@.len(),
            body == s@.subrange(start as int, len as int),
            body == (if s@.len() > 0 && s@[0] == '+' {
                s@.subrange(1, s@.len() as int)
            } else {
                s@
            }),
            body.len() > 0,
            digits_value(body.subrange(0, i - start)) == Some(value as nat),
            value <= 255,
        decreases len - i,
    {
        let c = s.get_char(i);
        let ghost before = body.subrange(0, i - start);
        let ghost after = body.subrange(0, i - start + 1);
        proof {
            assert(after.drop_last() =~= before);
            assert(after.last() == c);
        }
        if c < '0' || c > '9' {
            proof {
                assert(digits_value(after) is None);
                lemma_digits_prefix(body, i - start + 1);
            }
            return None;
        }
        let digit = (c as u32) - ('0' as u32);
        let next = value * 10 + digit;
        if next > 255 {
            proof {
                assert(digits_value(after) == Some(next as nat));
                if digits_value(body) is Some {
                    lemma_digits_grow(body, i - start + 1);
                }
            }
            return None;
        }
        value = next;
        i = i + 1;
    }
    assert(body.subrange(0, i - start) =~= body);
    Some(value as u8)
}

/// How the parsing of the arguments ended: with the options of a run;
/// with a call for help, whereupon the text of the help is shown and the
/// program ends; or with an error.
pub enum Parsed {
    Run(CmdLineOptions),
    Help,
    Fail(CmdLineError),
}

/// The mathematical value of `Parsed`.
pub ghost enum ParsedView {
    Run(CmdLineOptionsView),
    Help,
    Fail(CmdLineError),
}

impl View for Parsed {
    type V = ParsedView;

    open spec fn view(&self) -> ParsedView {
        match self {
            Parsed::Run(options) => ParsedView::Run(options@),
            Parsed::Help => ParsedView::Help,
            Parsed::Fail(e) => ParsedView::Fail(*e),
        }
    }
}

/// How the parsing of the arguments from the one at `i` on ends, given
/// the options that the arguments before it lead to, and which arguments
/// are reported as unknown on the way, after those in `unknown`. A flag sets
/// an option; the flags for the path, the jobs and the timeout take the
/// next argument; the flag for help ends the parsing; any other argument is
/// reported and passed over.
pub open spec fn parse_from(
    args: Seq<Seq<char>>,
    i: int,
    options: CmdLineOptionsView,
    unknown: Seq<Seq<char>>,
) -> (ParsedView, Seq<Seq<char>>)
    decreases args.len() - i,
{
    if i < 0 || i >= args.len() {
        (ParsedView::Run(options), unknown)
    } else {
        let arg = args[i];
        if arg == "--dry-run"@ {
            parse_from(args, i + 1, CmdLineOptionsView { dry_run: true, ..options }, unknown)
        } else if arg == "-d"@ || arg == "--disk"@ {
            parse_from(args, i + 1, CmdLineOptionsView { disk: true, ..options }, unknown)
        } else if arg == "-f"@ || arg == "--file"@ {
            if i + 1 < args.len() {
                parse_from(
                    args,
                    i + 2,
                    CmdLineOptionsView { filename: args[i + 1], ..options },
                    unknown,
                )
            } else {
                (ParsedView::Fail(CmdLineError::MissingFilename), unknown)
            }
        } else if arg == "-j"@ || arg == "--jobs"@ {
            if i + 1 < args.len() {
                match spec_parse_u8(args[i + 1]) {
                    Some(jobs) => parse_from(
                        args,
                        i + 2,
                        CmdLineOptionsView { threads: jobs, ..options },
                        unknown,
                    ),
                    None => (ParsedView::Fail(CmdLineError::InvalidJobs), unknown),
                }
            } else {
                (ParsedView::Fail(CmdLineError::MissingJobs), unknown)
            }
        } else if arg == "-t"@ || arg == "--timeout"@ {
            if i + 1 < args.len() {
                match spec_parse_u8(args[i + 1]) {
                    Some(timeout) => parse_from(
                        args,
                        i + 2,
                        CmdLineOptionsView { timeout, ..options },
                        unknown,
                    ),
                    None => (ParsedView::Fail(CmdLineError::InvalidTimeout), unknown),
                }
            } else {
                (ParsedView::Fail(CmdLineError::MissingTimeout), unknown)
            }
        } else if arg == "-h"@ || arg == "--help"@ {
            (ParsedView::Help, unknown)
        } else {
            parse_from(args, i + 1, options, unknown.push(arg))
        }
    }
}

/// The texts of the arguments.
pub open spec fn arguments(cmdline: Seq<String>) -> Seq<Seq<char>> {
    cmdline.map_values(|s: String| s@)
}

fn is_flag(arg: &String, flag: &str) -> (r: bool)
    ensures
        r == (arg@ == flag@),
{
    let flag = flag.to_owned();
    *arg == flag
}

impl CmdLineOptions {
    /// Parses the arguments of the program, the first of which is its
    /// name. Returns how the parsing ended and the arguments that are to be
    /// reported as unknown.
    pub fn parse(cmdline: Vec<String>) -> (r: (Parsed, Vec<String>))
        requires
            cmdline@.len() >= 1,
        ensures
            (r.0@, arguments(r.1@)) == parse_from(
                arguments(cmdline@),
                1,
                CmdLineOptionsView::default(),
                Seq::empty(),
            ),
    {
        let ghost args = arguments(cmdline@);
        let mut options = CmdLineOptions::default();
        let mut unknown: Vec<String> = Vec::new();
        let mut i: usize = 1;
        assert(arguments(unknown@) =~= Seq::<Seq<char>>::empty());
        while i < cmdline.len()
            invariant
                1 <= i,
                args == arguments(cmdline@),
                parse_from(args, i as int, options@, arguments(unknown@)) == parse_from(
                    args,
                    1,
                    CmdLineOptionsView::default(),
                    Seq::empty(),
                ),
            decreases cmdline@.len() - i,
        {
            let value = &cmdline[i];
            assert(args[i as int] == value@);
            if is_flag(value, "--dry-run") {
                options.dry_run = true;
                i = i + 1;
            } else if is_flag(value, "-d") || is_flag(value, "--disk") {
                options.disk = true;
                i = i + 1;
            } else if is_flag(value, "-f") || is_flag(value, "--file") {
                if i + 1 < cmdline.len() {
                    assert(args[i + 1] == cmdline@[i + 1]@);
                    options.filename = cmdline[i + 1].clone();
                    i = i + 2;
                } else {
                    return (Parsed::Fail(CmdLineError::MissingFilename), unknown);
                }
            } else if is_flag(value, "-j") || is_flag(value, "--jobs") {
                if i + 1 < cmdline.len() {
                    assert(args[i + 1] == cmdline@[i + 1]@);
                    match parse_u8(cmdline[i + 1].as_str()) {
                        Some(jobs) => {
                            options.threads = jobs;
                            i = i + 2;
                        },
                        None => {
                            return (Parsed::Fail(CmdLineError::InvalidJobs), unknown);
                        },
                    }
                } else {
                    return (Parsed::Fail(CmdLineError::MissingJobs), unknown);
                }
            } else if is_flag(value, "-t") || is_flag(value, "--timeout") {
                if i + 1 < cmdline.len() {
                    assert(args[i + 1] == cmdline@[i + 1]@);
                    match parse_u8(cmdline[i + 1].as_str()) {
                        Some(timeout) => {
                            options.timeout = timeout;
                            i = i + 2;
                        },
                        None => {
                            return (Parsed::Fail(CmdLineError::InvalidTimeout), unknown);
                        },
                    }
                } else {
                    return (Parsed::Fail(CmdLineError::MissingTimeout), unknown);
                }
            } else if is_flag(value, "-h") || is_flag(value, "--help") {
                return (Parsed::Help, unknown);
            } else {
                let ghost before = arguments(unknown@);
                unknown.push(value.clone());
                assert(arguments(unknown@) =~= before.push(value@));
                i = i + 1;
            }
        }
        (Parsed::Run(options), unknown)
    }

    /// The text that explains the options.
    pub fn help() -> (r: &'static str)
        ensures
            r@ == help_text(),
    {
        "
Usage: ./zebra [OPTIONS]

Options -

    -h, --help                     Print this help menu and exit

    --dry-run                      Just generate a program, print it out to stdout, execute it and exit
                                   This is false by default.

    -d, --disk                     Tell the fuzzer to save testcases into a file and then use those as args to the engine.
                                   This will result in lots of writes to disk.
                                   If this is not specified, then the fuzzer will pass the testcases via a memory mapped
                                   file however, this involves modifing the engine being fuzzed so it executes programs via a memory mapped file.
                                   This is false by default.

    -j, --jobs <nthreads>          No. of threads to use to run the fuzzer.
                                   Default value of 1 thread.

    -f, --file <path/to/jsengine>  The full path of the js engine to fuzz.

    -t, --timeout <timout in secs> The timeout that is to be applied for each run of jsc.
                                   Default value of 5 seconds.
    "
    }
}

/// The text that explains the options.
pub open spec fn help_text() -> Seq<char> {
    "
Usage: ./zebra [OPTIONS]

Options -

    -h, --help                     Print this help menu and exit

    --dry-run                      Just generate a program, print it out to stdout, execute it and exit
                                   This is false by default.

    -d, --disk                     Tell the fuzzer to save testcases into a file and then use those as args to the engine.
                                   This will result in lots of writes to disk.
                                   If this is not specified, then the fuzzer will pass the testcases via a memory mapped
                                   file however, this involves modifing the engine being fuzzed so it executes programs via a memory mapped file.
                                   This is false by default.

    -j, --jobs <nthreads>          No. of threads to use to run the fuzzer.
                                   Default value of 1 thread.

    -f, --file <path/to/jsengine>  The full path of the js engine to fuzz.

    -t, --timeout <timout in secs> The timeout that is to be applied for each run of jsc.
                                   Default value of 5 seconds.
    "@
}

} // verus!
