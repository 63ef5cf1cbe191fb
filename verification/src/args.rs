//! The configuration of one run, as the command line gives it.

use vstd::prelude::*;
use vstd::string::{StringExecFns, StringSliceAdditionalSpecFns};
use vstd::utf8::encode_utf8;
use crate::filter::{name_filtered, name_matches};
use crate::ExitStatus;
use crate::text::{decimal_usize, parse_usize, str_contains, str_eq, IntErrorKind};

verus! {

/// The color configuration.
#[derive(Copy, Clone, Debug, PartialEq, Eq, Structural)]
#[non_exhaustive]
pub enum ColorConfig {
    Auto,
    Always,
    Never,
}

/// The output format.
#[derive(Copy, Clone, Debug, PartialEq, Eq, Structural)]
#[non_exhaustive]
pub enum OutputFormat {
    Pretty,
    Terse,
    Json,
}

/// Command line arguments.
#[derive(Debug)]
#[non_exhaustive]
pub struct Args {
    pub list: bool,
    pub filter: Option<String>,
    pub filter_exact: bool,
    pub run_ignored: bool,
    pub run_tests: bool,
    pub run_benchmarks: bool,
    pub logfile: Option<String>,
    pub nocapture: bool,
    pub color: ColorConfig,
    pub format: OutputFormat,
    pub test_threads: Option<usize>,
    pub skip: Vec<String>,
}

/// The configuration of a run, as a mathematical value: what decides
/// which cases run, and how the run shows itself.
pub struct RunConfig {
    pub name_filter: Option<Seq<char>>,
    pub filter_exact: bool,
    pub skip_patterns: Seq<Seq<char>>,
    pub run_ignored: bool,
    pub run_tests: bool,
    pub run_benchmarks: bool,
    pub list_only: bool,
    pub logfile: Option<Seq<char>>,
    pub nocapture: bool,
    pub color: ColorConfig,
    pub format: OutputFormat,
    pub test_threads: Option<usize>,
}

impl View for Args {
    type V = RunConfig;

    open spec fn view(&self) -> RunConfig {
        RunConfig {
            name_filter: text_of(self.filter),
            filter_exact: self.filter_exact,
            skip_patterns: texts_of(self.skip@),
            run_ignored: self.run_ignored,
            run_tests: self.run_tests,
            run_benchmarks: self.run_benchmarks,
            list_only: self.list,
            logfile: text_of(self.logfile),
            nocapture: self.nocapture,
            color: self.color,
            format: self.format,
            test_threads: self.test_threads,
        }
    }
}

impl Default for Args {
    /// The arguments of a command line without options: every test and
    /// every benchmark runs.
    fn default() -> (args: Self)
        ensures
            !args.list,
            args.filter is None,
            !args.filter_exact,
            !args.run_ignored,
            args.run_tests,
            args.run_benchmarks,
            args.logfile is None,
            !args.nocapture,
            args.color == ColorConfig::Auto,
            args.format == OutputFormat::Pretty,
            args.test_threads is None,
            args.skip@.len() == 0,
    {
        Args {
            list: false,
            filter: None,
            filter_exact: false,
            run_ignored: false,
            run_tests: true,
            run_benchmarks: true,
            logfile: None,
            nocapture: false,
            color: ColorConfig::Auto,
            format: OutputFormat::Pretty,
            test_threads: None,
            skip: Vec::new(),
        }
    }
}

/// Whether `name` matches `pattern`, by equality or by containing it.
fn matches_pattern(name: &str, pattern: &str, exact: bool) -> (yes: bool)
    ensures
        yes == name_matches(name@, pattern@, exact),
{
    if exact {
        str_eq(name, pattern)
    } else {
        str_contains(name, pattern)
    }
}

impl Args {
    /// Whether the name filter or a skip pattern rules out the case named
    /// `name`: the name does not match the filter, or it matches one of
    /// the skip patterns.
    pub fn is_filtered(&self, name: &str) -> (yes: bool)
        ensures
            yes == name_filtered(name@, self@),
    {
        if let Some(filter) = &self.filter {
            if !matches_pattern(name, filter.as_str(), self.filter_exact) {
                return true;
            }
        }
        let mut i: usize = 0;
        while i < self.skip.len()
            invariant
                i <= self.skip.len(),
                forall|j: int|
                    0 <= j < i ==> !name_matches(
                        name@,
                        #[trigger] self@.skip_patterns[j],
                        self.filter_exact,
                    ),
            decreases self.skip.len() - i,
        {
            if matches_pattern(name, self.skip[i].as_str(), self.filter_exact) {
                assert(self@.skip_patterns[i as int] == self.skip[i as int]@);
                return true;
            }
            i += 1;
        }
        false
    }
}

/// Why a command line does not give the arguments of a run.
#[derive(Debug)]
pub enum ArgsError {
    /// An option that takes an argument came without one.
    ArgumentMissing(String),
    /// The command line holds an option that is not among the possible
    /// ones.
    UnrecognizedOption(String),
    /// A required option is not there.
    OptionMissing(String),
    /// An option that can be given once came more than once.
    OptionDuplicated(String),
    /// An option that takes no argument came with one.
    UnexpectedArgument(String),
    /// The argument of `--test-threads` is not a number.
    TestThreads(IntErrorKind),
    /// The argument of `--test-threads` is 0.
    TestThreadsZero,
    /// The argument of `--color` is none of the three it can be.
    InvalidColor(String),
    /// The argument of `--format` is none of the three it can be.
    InvalidFormat(String),
}

/// What an error says, as a mathematical value.
pub enum ArgsFault {
    ArgumentMissing(Seq<char>),
    UnrecognizedOption(Seq<char>),
    OptionMissing(Seq<char>),
    OptionDuplicated(Seq<char>),
    UnexpectedArgument(Seq<char>),
    TestThreads(IntErrorKind),
    TestThreadsZero,
    InvalidColor(Seq<char>),
    InvalidFormat(Seq<char>),
}

impl View for ArgsError {
    type V = ArgsFault;

    open spec fn view(&self) -> ArgsFault {
        match *self {
            ArgsError::ArgumentMissing(name) => ArgsFault::ArgumentMissing(name@),
            ArgsError::UnrecognizedOption(name) => ArgsFault::UnrecognizedOption(name@),
            ArgsError::OptionMissing(name) => ArgsFault::OptionMissing(name@),
            ArgsError::OptionDuplicated(name) => ArgsFault::OptionDuplicated(name@),
            ArgsError::UnexpectedArgument(name) => ArgsFault::UnexpectedArgument(name@),
            ArgsError::TestThreads(kind) => ArgsFault::TestThreads(kind),
            ArgsError::TestThreadsZero => ArgsFault::TestThreadsZero,
            ArgsError::InvalidColor(was) => ArgsFault::InvalidColor(was@),
            ArgsError::InvalidFormat(was) => ArgsFault::InvalidFormat(was@),
        }
    }
}

/// Why a string is not a number, in words.
pub open spec fn int_error_text(kind: IntErrorKind) -> Seq<char> {
    match kind {
        IntErrorKind::Empty => "cannot parse integer from empty string"@,
        IntErrorKind::InvalidDigit => "invalid digit found in string"@,
        IntErrorKind::PosOverflow => "number too large to fit in target type"@,
    }
}

/// What an error says, in words.
pub open spec fn message_of(fault: ArgsFault) -> Seq<char> {
    match fault {
        ArgsFault::ArgumentMissing(name) => "Argument to option '"@ + name + "' missing"@,
        ArgsFault::UnrecognizedOption(name) => "Unrecognized option: '"@ + name + "'"@,
        ArgsFault::OptionMissing(name) => "Required option '"@ + name + "' missing"@,
        ArgsFault::OptionDuplicated(name) => "Option '"@ + name + "' given more than once"@,
        ArgsFault::UnexpectedArgument(name) => "Option '"@ + name + "' does not take an argument"@,
        ArgsFault::TestThreads(kind) => "argument for --test-threads must be a number > 0 (error: "@
            + int_error_text(kind) + ")"@,
        ArgsFault::TestThreadsZero => "argument for --test-threads must not be 0"@,
        ArgsFault::InvalidColor(was) => "argument for --color must be auto, always, or never (was "@
            + was + ")"@,
        ArgsFault::InvalidFormat(was) => "argument for --format must be pretty, terse, or json (was "@
            + was + ")"@,
    }
}

/// `before`, `middle` and `after` in one string.
fn enclose(before: &str, middle: &str, after: &str) -> (s: String)
    ensures
        s@ == before@ + middle@ + after@,
{
    before.to_owned().concat(middle).concat(after)
}

impl ArgsError {
    /// What the error says, in words.
    pub fn message(&self) -> (msg: String)
        ensures
            msg@ == message_of(self@),
    {
        match self {
            ArgsError::ArgumentMissing(name) => enclose(
                "Argument to option '",
                name.as_str(),
                "' missing",
            ),
            ArgsError::UnrecognizedOption(name) => enclose(
                "Unrecognized option: '",
                name.as_str(),
                "'",
            ),
            ArgsError::OptionMissing(name) => enclose(
                "Required option '",
                name.as_str(),
                "' missing",
            ),
            ArgsError::OptionDuplicated(name) => enclose(
                "Option '",
                name.as_str(),
                "' given more than once",
            ),
            ArgsError::UnexpectedArgument(name) => enclose(
                "Option '",
                name.as_str(),
                "' does not take an argument",
            ),
            ArgsError::TestThreads(kind) => {
                let text = match kind {
                    IntErrorKind::Empty => "cannot parse integer from empty string",
                    IntErrorKind::InvalidDigit => "invalid digit found in string",
                    IntErrorKind::PosOverflow => "number too large to fit in target type",
                };
                enclose("argument for --test-threads must be a number > 0 (error: ", text, ")")
            },
            ArgsError::TestThreadsZero => "argument for --test-threads must not be 0".to_owned(),
            ArgsError::InvalidColor(was) => enclose(
                "argument for --color must be auto, always, or never (was ",
                was.as_str(),
                ")",
            ),
            ArgsError::InvalidFormat(was) => enclose(
                "argument for --format must be pretty, terse, or json (was ",
                was.as_str(),
                ")",
            ),
        }
    }
}

/// The color configuration that `s` names, if it names one.
pub open spec fn color_named(s: Seq<char>) -> Option<ColorConfig> {
    if s == "auto"@ {
        Some(ColorConfig::Auto)
    } else if s == "always"@ {
        Some(ColorConfig::Always)
    } else if s == "never"@ {
        Some(ColorConfig::Never)
    } else {
        None
    }
}

/// The output format that `s` names, if it names one.
pub open spec fn format_named(s: Seq<char>) -> Option<OutputFormat> {
    if s == "pretty"@ {
        Some(OutputFormat::Pretty)
    } else if s == "terse"@ {
        Some(OutputFormat::Terse)
    } else if s == "json"@ {
        Some(OutputFormat::Json)
    } else {
        None
    }
}

/// The number of threads that `bytes` gives: a number in base ten that
/// is not 0.
pub open spec fn threads_named(bytes: Seq<u8>) -> Result<usize, ArgsFault> {
    match decimal_usize(bytes) {
        Err(kind) => Err(ArgsFault::TestThreads(kind)),
        Ok(n) => if n == 0 {
            Err(ArgsFault::TestThreadsZero)
        } else {
            Ok(n)
        },
    }
}

impl ColorConfig {
    /// Read a color configuration: `auto`, `always` or `never`. Anything
    /// else is refused and handed back in the error.
    pub fn from_str(s: &str) -> (parsed: Result<ColorConfig, ArgsError>)
        ensures
            match parsed {
                Ok(color) => color_named(s@) == Some(color),
                Err(err) => color_named(s@) is None && err@ == ArgsFault::InvalidColor(s@),
            },
    {
        if str_eq(s, "auto") {
            Ok(ColorConfig::Auto)
        } else if str_eq(s, "always") {
            Ok(ColorConfig::Always)
        } else if str_eq(s, "never") {
            Ok(ColorConfig::Never)
        } else {
            Err(ArgsError::InvalidColor(s.to_owned()))
        }
    }
}

impl OutputFormat {
    /// Read an output format: `pretty`, `terse` or `json`. Anything else
    /// is refused and handed back in the error.
    pub fn from_str(s: &str) -> (parsed: Result<OutputFormat, ArgsError>)
        ensures
            match parsed {
                Ok(format) => format_named(s@) == Some(format),
                Err(err) => format_named(s@) is None && err@ == ArgsFault::InvalidFormat(s@),
            },
    {
        if str_eq(s, "pretty") {
            Ok(OutputFormat::Pretty)
        } else if str_eq(s, "terse") {
            Ok(OutputFormat::Terse)
        } else if str_eq(s, "json") {
            Ok(OutputFormat::Json)
        } else {
            Err(ArgsError::InvalidFormat(s.to_owned()))
        }
    }
}

/// The number of threads for running tests, as `--test-threads` gives it.
#[derive(Copy, Clone, Debug, PartialEq, Eq, Structural)]
pub struct TestThreads(pub usize);

impl TestThreads {
    /// Read a number of threads: a number in base ten that is not 0.
    pub fn from_str(s: &str) -> (parsed: Result<TestThreads, ArgsError>)
        ensures
            match parsed {
                Ok(threads) => threads_named(s.spec_bytes()) == Ok::<usize, ArgsFault>(threads.0),
                Err(err) => threads_named(s.spec_bytes()) == Err::<usize, ArgsFault>(err@),
            },
    {
        match parse_usize(s) {
            Err(kind) => Err(ArgsError::TestThreads(kind)),
            Ok(n) => {
                if n == 0 {
                    return Err(ArgsError::TestThreadsZero);
                }
                Ok(TestThreads(n))
            },
        }
    }
}

/// What a command line holds, option by option, before the arguments of
/// the options are read.
#[derive(Debug)]
pub struct Matched {
    /// `-h`, `--help`
    pub help: bool,
    /// `--ignored`
    pub ignored: bool,
    /// `--test`
    pub test: bool,
    /// `--bench`
    pub bench: bool,
    /// `--list`
    pub list: bool,
    /// `--nocapture`
    pub nocapture: bool,
    /// `-q`, `--quiet`
    pub quiet: bool,
    /// `--exact`
    pub exact: bool,
    /// The argument of `--logfile`.
    pub logfile: Option<String>,
    /// The argument of `--test-threads`.
    pub test_threads: Option<String>,
    /// The argument of `--color`.
    pub color: Option<String>,
    /// The argument of `--format`.
    pub format: Option<String>,
    /// The arguments of every `--skip`, in order.
    pub skip: Vec<String>,
    /// What stands on the command line beside the options, in order.
    pub free: Vec<String>,
}

/// What a command line holds, as a mathematical value.
pub struct CommandLine {
    pub help: bool,
    pub ignored: bool,
    pub test: bool,
    pub bench: bool,
    pub list: bool,
    pub nocapture: bool,
    pub quiet: bool,
    pub exact: bool,
    pub logfile: Option<Seq<char>>,
    pub test_threads: Option<Seq<char>>,
    pub color: Option<Seq<char>>,
    pub format: Option<Seq<char>>,
    pub skip: Seq<Seq<char>>,
    pub free: Seq<Seq<char>>,
}

impl View for Matched {
    type V = CommandLine;

    open spec fn view(&self) -> CommandLine {
        CommandLine {
            help: self.help,
            ignored: self.ignored,
            test: self.test,
            bench: self.bench,
            list: self.list,
            nocapture: self.nocapture,
            quiet: self.quiet,
            exact: self.exact,
            logfile: text_of(self.logfile),
            test_threads: text_of(self.test_threads),
            color: text_of(self.color),
            format: text_of(self.format),
            skip: texts_of(self.skip@),
            free: texts_of(self.free@),
        }
    }
}

impl Default for Matched {
    /// What a command line without anything on it holds.
    fn default() -> (matched: Self)
        ensures
            !matched.help && !matched.ignored && !matched.test && !matched.bench && !matched.list
                && !matched.nocapture && !matched.quiet && !matched.exact,
            matched.logfile is None && matched.test_threads is None && matched.color is None
                && matched.format is None,
            matched.skip@.len() == 0 && matched.free@.len() == 0,
    {
        Matched {
            help: false,
            ignored: false,
            test: false,
            bench: false,
            list: false,
            nocapture: false,
            quiet: false,
            exact: false,
            logfile: None,
            test_threads: None,
            color: None,
            format: None,
            skip: Vec::new(),
            free: Vec::new(),
        }
    }
}

/// The characters of a string that may be absent.
pub open spec fn text_of(s: Option<String>) -> Option<Seq<char>> {
    match s {
        Some(text) => Some(text@),
        None => None,
    }
}

/// The characters of each string, in order.
pub open spec fn texts_of(strings: Seq<String>) -> Seq<Seq<char>> {
    strings.map_values(|s: String| s@)
}

/// What `--test-threads` gives: nothing where the option is absent.
pub open spec fn threads_given(arg: Option<Seq<char>>) -> Result<Option<usize>, ArgsFault> {
    match arg {
        None => Ok(None),
        Some(s) => match threads_named(encode_utf8(s)) {
            Ok(n) => Ok(Some(n)),
            Err(fault) => Err(fault),
        },
    }
}

/// What `--color` gives: `auto` where the option is absent.
pub open spec fn color_given(arg: Option<Seq<char>>) -> Result<ColorConfig, ArgsFault> {
    match arg {
        None => Ok(ColorConfig::Auto),
        Some(s) => match color_named(s) {
            Some(color) => Ok(color),
            None => Err(ArgsFault::InvalidColor(s)),
        },
    }
}

/// What `--format` gives: where the option is absent, `terse` for a
/// quiet run and `pretty` for any other.
pub open spec fn format_given(arg: Option<Seq<char>>, quiet: bool) -> Result<
    OutputFormat,
    ArgsFault,
> {
    match arg {
        None => Ok(
            if quiet {
                OutputFormat::Terse
            } else {
                OutputFormat::Pretty
            },
        ),
        Some(s) => match format_named(s) {
            Some(format) => Ok(format),
            None => Err(ArgsFault::InvalidFormat(s)),
        },
    }
}

/// The first thing that is wrong with the arguments of the options, in
/// the order threads, color, format.
pub open spec fn first_fault(m: CommandLine) -> Option<ArgsFault> {
    if threads_given(m.test_threads) is Err {
        Some(threads_given(m.test_threads)->Err_0)
    } else if color_given(m.color) is Err {
        Some(color_given(m.color)->Err_0)
    } else if format_given(m.format, m.quiet) is Err {
        Some(format_given(m.format, m.quiet)->Err_0)
    } else {
        None
    }
}

/// `args` are the arguments that the command line `m` gives, in an
/// environment that asks for output not to be captured or does not.
pub open spec fn args_from(args: Args, m: CommandLine, nocapture_env: bool) -> bool {
    &&& args.list == m.list
    &&& text_of(args.filter) == (if m.free.len() > 0 {
        Some(m.free[0])
    } else {
        None
    })
    &&& args.filter_exact == m.exact
    &&& args.run_ignored == m.ignored
    &&& args.run_benchmarks == (m.bench || !m.test)
    &&& args.run_tests == (m.test || !m.bench)
    &&& text_of(args.logfile) == m.logfile
    &&& args.nocapture == (m.nocapture || nocapture_env)
    &&& Ok::<Option<usize>, ArgsFault>(args.test_threads) == threads_given(m.test_threads)
    &&& Ok::<ColorConfig, ArgsFault>(args.color) == color_given(m.color)
    &&& Ok::<OutputFormat, ArgsFault>(args.format) == format_given(m.format, m.quiet)
    &&& texts_of(args.skip@) == m.skip
}

/// `resolved` is what the command line `m` resolves to: nothing where it
/// asks for help, else the first fault of its arguments, else the
/// arguments of the run.
pub open spec fn resolves(
    m: CommandLine,
    nocapture_env: bool,
    resolved: Result<Option<Args>, ArgsError>,
) -> bool {
    match resolved {
        Ok(None) => m.help,
        Ok(Some(args)) => !m.help && first_fault(m) is None && args_from(args, m, nocapture_env),
        Err(err) => !m.help && first_fault(m) == Some(err@),
    }
}

/// Whether reading the command line ends the process, and with what
/// status: arguments let the run go on, a request for help ends the
/// process successfully once the usage is shown, and a command line in
/// error ends it as a failure.
pub fn status_of(parsed: &Result<Option<Args>, ArgsError>) -> (status: Option<ExitStatus>)
    ensures
        match *parsed {
            Ok(Some(_)) => status is None,
            Ok(None) => status matches Some(s) && s.code() == 0,
            Err(_) => status matches Some(s) && s.code() == 101,
        },
{
    match parsed {
        Ok(Some(_)) => None,
        Ok(None) => Some(ExitStatus::ok()),
        Err(_) => Some(ExitStatus::failed()),
    }
}

/// A copy of the strings.
pub(crate) fn clone_strings(strings: &Vec<String>) -> (copy: Vec<String>)
    ensures
        copy@ == strings@,
{
    let mut copy: Vec<String> = Vec::new();
    let mut i: usize = 0;
    while i < strings.len()
        invariant
            i <= strings.len(),
            copy@ == strings@.take(i as int),
        decreases strings.len() - i,
    {
        copy.push(strings[i].clone());
        i += 1;
    }
    copy
}

/// A copy of a string that may be absent.
pub(crate) fn clone_text(text: &Option<String>) -> (copy: Option<String>)
    ensures
        copy == *text,
{
    match text {
        Some(s) => Some(s.clone()),
        None => None,
    }
}

impl Args {
    /// Resolve what a command line holds into the arguments of a run.
    ///
    /// A command line that asks for help gives no arguments: `Ok(None)`.
    /// `--test` alone runs the tests only, `--bench` alone the benchmarks
    /// only; with both, and with neither, tests and benchmarks run.
    /// Otherwise the arguments of `--test-threads`, `--color` and
    /// `--format` are read, in this order, and the first that cannot be
    /// read is the error. `nocapture_env` says whether the environment
    /// asks for output not to be captured, as `--nocapture` does.
    pub fn resolve(m: &Matched, nocapture_env: bool) -> (resolved: Result<Option<Args>, ArgsError>)
        ensures
            resolves(m@, nocapture_env, resolved),
    {
        if m.help {
            return Ok(None);
        }
        let filter = if m.free.len() > 0 {
            Some(m.free[0].clone())
        } else {
            None
        };
        let run_benchmarks = m.bench || !m.test;
        let run_tests = m.test || !m.bench;
        let nocapture = m.nocapture || nocapture_env;
        let test_threads = match &m.test_threads {
            Some(s) => match TestThreads::from_str(s.as_str()) {
                Ok(threads) => Some(threads.0),
                Err(err) => {
                    return Err(err);
                },
            },
            None => None,
        };
        let color = match &m.color {
            Some(s) => match ColorConfig::from_str(s.as_str()) {
                Ok(color) => color,
                Err(err) => {
                    return Err(err);
                },
            },
            None => ColorConfig::Auto,
        };
        let format = match &m.format {
            Some(s) => match OutputFormat::from_str(s.as_str()) {
                Ok(format) => format,
                Err(err) => {
                    return Err(err);
                },
            },
            None => if m.quiet {
                OutputFormat::Terse
            } else {
                OutputFormat::Pretty
            },
        };
        Ok(
            Some(
                Args {
                    list: m.list,
                    filter,
                    filter_exact: m.exact,
                    run_ignored: m.ignored,
                    run_tests,
                    run_benchmarks,
                    logfile: clone_text(&m.logfile),
                    nocapture,
                    color,
                    format,
                    test_threads,
                    skip: clone_strings(&m.skip),
                },
            ),
        )
    }
}

} // verus!
