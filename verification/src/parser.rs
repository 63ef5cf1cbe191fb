//! Reading the command line with `getopts`.
//!
//! `getopts` is not verified. What this module takes from it on trust is
//! stated in the contracts of the functions marked `external_body`, over
//! five names: the options that were declared, what parsing a command
//! line with them gives, what the command line held for each option and
//! what it held beside them, and the usage text.

use vstd::prelude::*;
use vstd::utf8::is_ascii_chars;
use crate::args::{resolves, text_of, texts_of, Args, ArgsError, ArgsFault, CommandLine, Matched};

verus! {

/// `getopts::Options`, the set of options of a command line. Nothing is
/// known of a value of it but what the names below say.
#[verifier::external_type_specification]
#[verifier::external_body]
pub struct ExOptions(getopts::Options);

/// `getopts::Matches`, a parsed command line. Nothing is known of a value
/// of it but what the names below say.
#[verifier::external_type_specification]
#[verifier::external_body]
pub struct ExMatches(getopts::Matches);

/// The options that a set of options declares, in the order in which they
/// were declared. Of each: the short and the long name, empty for none,
/// whether the option takes an argument, and whether it may stand on the
/// command line more than once.
pub uninterp spec fn declared(opts: getopts::Options) -> Seq<(Seq<char>, Seq<char>, bool, bool)>;

/// What the parsed command line held for each name it knows: one entry
/// for each time the option stood on it, with the argument that the
/// option came with, if it came with one.
pub uninterp spec fn occurrences(matches: getopts::Matches) -> Map<Seq<char>, Seq<Option<Seq<char>>>>;

/// What the parsed command line held beside the options, in order.
pub uninterp spec fn free_of(matches: getopts::Matches) -> Seq<Seq<char>>;

/// What parsing `args` with the options gives: the matches, or why the
/// arguments do not fit the options.
pub uninterp spec fn parsed(opts: getopts::Options, args: Seq<Seq<char>>) -> Result<
    getopts::Matches,
    ArgsFault,
>;

/// The usage text of the options under the first line `brief`.
pub uninterp spec fn usage_text(opts: getopts::Options, brief: Seq<char>) -> Seq<char>;

/// The two names can be declared as one option: both in ASCII, the short
/// one of at most one character, the long one not of one character, and
/// not both empty.
pub open spec fn can_declare(short_name: Seq<char>, long_name: Seq<char>) -> bool {
    &&& is_ascii_chars(short_name)
    &&& is_ascii_chars(long_name)
    &&& short_name.len() <= 1
    &&& long_name.len() != 1
    &&& short_name.len() + long_name.len() > 0
}

/// Every declared option has names that can be declared.
pub open spec fn well_declared(defs: Seq<(Seq<char>, Seq<char>, bool, bool)>) -> bool {
    forall|i: int| 0 <= i < defs.len() ==> can_declare((#[trigger] defs[i]).0, defs[i].1)
}

/// The names under which the declared options can be asked for: every
/// short and every long name that is not empty.
pub open spec fn defined_names(defs: Seq<(Seq<char>, Seq<char>, bool, bool)>) -> Set<Seq<char>> {
    Set::new(
        |name: Seq<char>|
            name.len() > 0 && exists|i: int|
                0 <= i < defs.len() && ((#[trigger] defs[i]).0 == name || defs[i].1 == name),
    )
}

/// The arguments that the occurrences of an option came with, in order.
pub open spec fn given_args(occ: Seq<Option<Seq<char>>>) -> Seq<Seq<char>> {
    occ.filter(|o: Option<Seq<char>>| o is Some).map_values(|o: Option<Seq<char>>| o->0)
}

/// The argument that the first occurrence of an option came with.
pub open spec fn first_arg(occ: Seq<Option<Seq<char>>>) -> Option<Seq<char>> {
    if occ.len() > 0 {
        occ[0]
    } else {
        None
    }
}

/// The error is one of those that stand for a command line that does not
/// fit the options.
pub open spec fn is_options_fault(fault: ArgsFault) -> bool {
    fault is ArgumentMissing || fault is UnrecognizedOption || fault is OptionMissing
        || fault is OptionDuplicated || fault is UnexpectedArgument
}

/// `getopts::Options::new`: a set of options that declares none.
#[verifier::external_body]
fn options_new() -> (opts: getopts::Options)
    ensures
        declared(opts) == Seq::<(Seq<char>, Seq<char>, bool, bool)>::empty(),
{
    getopts::Options::new()
}

/// `getopts::Options::optflag`: declares, after the options declared so
/// far, an option under the two names that takes no argument and may
/// stand on the command line once. The
/// outside function panics on a short name of more than one byte and on
/// a long name of one byte; `can_declare` leaves these out.
#[verifier::external_body]
fn optflag(opts: &mut getopts::Options, short_name: &str, long_name: &str, desc: &str)
    requires
        can_declare(short_name@, long_name@),
    ensures
        declared(*final(opts)) == declared(*old(opts)).push(
            (short_name@, long_name@, false, false),
        ),
{
    opts.optflag(short_name, long_name, desc);
}

/// `getopts::Options::optopt`: declares, after the options declared so
/// far, an option under the two names that takes an argument and may
/// stand on the command line once. It panics as `optflag` does.
#[verifier::external_body]
fn optopt(opts: &mut getopts::Options, short_name: &str, long_name: &str, desc: &str, hint: &str)
    requires
        can_declare(short_name@, long_name@),
    ensures
        declared(*final(opts)) == declared(*old(opts)).push(
            (short_name@, long_name@, true, false),
        ),
{
    opts.optopt(short_name, long_name, desc, hint);
}

/// `getopts::Options::optmulti`: declares, after the options declared so
/// far, an option under the two names that takes an argument and may
/// stand on the command line any number of times. It panics as `optflag`
/// does.
#[verifier::external_body]
fn optmulti(opts: &mut getopts::Options, short_name: &str, long_name: &str, desc: &str, hint: &str)
    requires
        can_declare(short_name@, long_name@),
    ensures
        declared(*final(opts)) == declared(*old(opts)).push(
            (short_name@, long_name@, true, true),
        ),
{
    opts.optmulti(short_name, long_name, desc, hint);
}

/// `getopts::Options::parse`: the same options and arguments always give
/// the same result, which `parsed` names. Matches know exactly the names
/// that the options define. A failure becomes the error of the same name,
/// with the option's name that it holds. The outside function panics on
/// an option declared without any name; `well_declared` leaves that out.
#[verifier::external_body]
fn parse(opts: &getopts::Options, args: &Vec<String>) -> (result: Result<getopts::Matches, ArgsError>)
    requires
        well_declared(declared(*opts)),
    ensures
        match result {
            Ok(matches) => parsed(*opts, texts_of(args@)) == Ok::<getopts::Matches, ArgsFault>(
                matches,
            ) && occurrences(matches).dom() == defined_names(declared(*opts)),
            Err(err) => is_options_fault(err@) && parsed(*opts, texts_of(args@)) == Err::<
                getopts::Matches,
                ArgsFault,
            >(err@),
        },
{
    match opts.parse(args) {
        Ok(matches) => Ok(matches),
        Err(getopts::Fail::ArgumentMissing(name)) => Err(ArgsError::ArgumentMissing(name)),
        Err(getopts::Fail::UnrecognizedOption(name)) => Err(ArgsError::UnrecognizedOption(name)),
        Err(getopts::Fail::OptionMissing(name)) => Err(ArgsError::OptionMissing(name)),
        Err(getopts::Fail::OptionDuplicated(name)) => Err(ArgsError::OptionDuplicated(name)),
        Err(getopts::Fail::UnexpectedArgument(name)) => Err(ArgsError::UnexpectedArgument(name)),
    }
}

/// `getopts::Options::usage`: the usage text of the options under the
/// first line `brief`; the same options and first line always give the
/// same text, which `usage_text` names.
#[verifier::external_body]
fn usage(opts: &getopts::Options, brief: &str) -> (text: String)
    ensures
        text@ == usage_text(*opts, brief@),
{
    opts.usage(brief)
}

/// `getopts::Matches::opt_present`: whether the option stood on the
/// command line at least once. The outside function panics on a name
/// that the matches do not know.
#[verifier::external_body]
fn opt_present(matches: &getopts::Matches, name: &str) -> (present: bool)
    requires
        occurrences(*matches).dom().contains(name@),
    ensures
        present == (occurrences(*matches)[name@].len() > 0),
{
    matches.opt_present(name)
}

/// `getopts::Matches::opt_str`: the argument that the first occurrence
/// of the option came with. The outside function panics on a name that
/// the matches do not know.
#[verifier::external_body]
fn opt_str(matches: &getopts::Matches, name: &str) -> (arg: Option<String>)
    requires
        occurrences(*matches).dom().contains(name@),
    ensures
        text_of(arg) == first_arg(occurrences(*matches)[name@]),
{
    matches.opt_str(name)
}

/// `getopts::Matches::opt_strs`: the arguments that the occurrences of
/// the option came with, in order. The outside function panics on a name
/// that the matches do not know.
#[verifier::external_body]
fn opt_strs(matches: &getopts::Matches, name: &str) -> (args: Vec<String>)
    requires
        occurrences(*matches).dom().contains(name@),
    ensures
        texts_of(args@) == given_args(occurrences(*matches)[name@]),
{
    matches.opt_strs(name)
}

/// The field `free` of `getopts::Matches`: what the command line held
/// beside the options, in order.
#[verifier::external_body]
fn free(matches: &getopts::Matches) -> (args: Vec<String>)
    ensures
        texts_of(args@) == free_of(*matches),
{
    matches.free.clone()
}

/// The options of the harness, in the order in which they are declared:
/// eight flags, four options with one argument, and `skip`, which takes
/// an argument and may be given any number of times.
pub open spec fn option_table() -> Seq<(Seq<char>, Seq<char>, bool, bool)> {
    seq![
        (""@, "ignored"@, false, false),
        (""@, "test"@, false, false),
        (""@, "bench"@, false, false),
        (""@, "list"@, false, false),
        ("h"@, "help"@, false, false),
        (""@, "logfile"@, true, false),
        (""@, "nocapture"@, false, false),
        (""@, "test-threads"@, true, false),
        (""@, "skip"@, true, true),
        ("q"@, "quiet"@, false, false),
        (""@, "exact"@, false, false),
        (""@, "color"@, true, false),
        (""@, "format"@, true, false),
    ]
}

/// What the matches hold for the options of the harness.
pub open spec fn held_by(matches: getopts::Matches) -> CommandLine {
    let occ = occurrences(matches);
    CommandLine {
        help: occ["h"@].len() > 0,
        ignored: occ["ignored"@].len() > 0,
        test: occ["test"@].len() > 0,
        bench: occ["bench"@].len() > 0,
        list: occ["list"@].len() > 0,
        nocapture: occ["nocapture"@].len() > 0,
        quiet: occ["quiet"@].len() > 0,
        exact: occ["exact"@].len() > 0,
        logfile: first_arg(occ["logfile"@]),
        test_threads: first_arg(occ["test-threads"@]),
        color: first_arg(occ["color"@]),
        format: first_arg(occ["format"@]),
        skip: given_args(occ["skip"@]),
        free: free_of(matches),
    }
}

/// The arguments without the first, which names the program.
pub open spec fn tail(args: Seq<Seq<char>>) -> Seq<Seq<char>> {
    if args.len() > 0 {
        args.subrange(1, args.len() as int)
    } else {
        args
    }
}

/// Each name that the harness asks the matches for is a name that the
/// options of the harness define.
proof fn lemma_names_defined()
    ensures
        defined_names(option_table()).contains("h"@),
        defined_names(option_table()).contains("ignored"@),
        defined_names(option_table()).contains("test"@),
        defined_names(option_table()).contains("bench"@),
        defined_names(option_table()).contains("list"@),
        defined_names(option_table()).contains("nocapture"@),
        defined_names(option_table()).contains("quiet"@),
        defined_names(option_table()).contains("exact"@),
        defined_names(option_table()).contains("logfile"@),
        defined_names(option_table()).contains("test-threads"@),
        defined_names(option_table()).contains("color"@),
        defined_names(option_table()).contains("format"@),
        defined_names(option_table()).contains("skip"@),
{
    reveal_strlit("h");
    reveal_strlit("ignored");
    reveal_strlit("test");
    reveal_strlit("bench");
    reveal_strlit("list");
    reveal_strlit("nocapture");
    reveal_strlit("quiet");
    reveal_strlit("exact");
    reveal_strlit("logfile");
    reveal_strlit("test-threads");
    reveal_strlit("color");
    reveal_strlit("format");
    reveal_strlit("skip");
}

/// The arguments of a command line from the second on.
fn tail_of(args: &Vec<String>) -> (rest: Vec<String>)
    ensures
        texts_of(rest@) == tail(texts_of(args@)),
{
    let mut rest: Vec<String> = Vec::new();
    let mut i: usize = 1;
    while i < args.len()
        invariant
            1 <= i,
            i <= args.len() || args.len() == 0,
            args.len() > 0 ==> rest@ == args@.subrange(1, i as int),
            args.len() == 0 ==> rest@.len() == 0,
        decreases args.len() - i,
    {
        rest.push(args[i].clone());
        i += 1;
    }
    rest
}

/// Read from the matches what they hold for the options of the harness.
fn read(matches: &getopts::Matches) -> (held: Matched)
    requires
        occurrences(*matches).dom() == defined_names(option_table()),
    ensures
        held@ == held_by(*matches),
{
    proof {
        lemma_names_defined();
    }
    Matched {
        help: opt_present(matches, "h"),
        ignored: opt_present(matches, "ignored"),
        test: opt_present(matches, "test"),
        bench: opt_present(matches, "bench"),
        list: opt_present(matches, "list"),
        nocapture: opt_present(matches, "nocapture"),
        quiet: opt_present(matches, "quiet"),
        exact: opt_present(matches, "exact"),
        logfile: opt_str(matches, "logfile"),
        test_threads: opt_str(matches, "test-threads"),
        color: opt_str(matches, "color"),
        format: opt_str(matches, "format"),
        skip: opt_strs(matches, "skip"),
        free: free(matches),
    }
}

/// The reader of the command line of the harness.
pub struct Parser {
    args: Vec<String>,
    opts: getopts::Options,
}

impl Parser {
    /// The arguments of the command line, the program's name first.
    pub closed spec fn args(&self) -> Seq<String> {
        self.args@
    }

    /// The options that the reader declares.
    pub closed spec fn options(&self) -> getopts::Options {
        self.opts
    }

    /// The reader declares the options of the harness, and no others.
    pub closed spec fn wf(&self) -> bool {
        declared(self.opts) == option_table()
    }

    /// A reader for the command line `args`, whose first argument names
    /// the program.
    pub fn new(args: Vec<String>) -> (parser: Self)
        ensures
            parser.wf(),
            parser.args() == args@,
    {
        proof {
            reveal_strlit("");
            reveal_strlit("h");
            reveal_strlit("q");
            reveal_strlit("ignored");
            reveal_strlit("test");
            reveal_strlit("bench");
            reveal_strlit("list");
            reveal_strlit("help");
            reveal_strlit("nocapture");
            reveal_strlit("quiet");
            reveal_strlit("exact");
            reveal_strlit("logfile");
            reveal_strlit("test-threads");
            reveal_strlit("color");
            reveal_strlit("format");
            reveal_strlit("skip");
        }
        let mut opts = options_new();
        optflag(&mut opts, "", "ignored", "Run only ignored tests");
        optflag(&mut opts, "", "test", "Run tests and not benchmarks");
        optflag(&mut opts, "", "bench", "Run benchmarks instead of tests");
        optflag(&mut opts, "", "list", "List all tests and benchmarks");
        optflag(&mut opts, "h", "help", "Display this message (longer with --help)");
        optopt(
            &mut opts,
            "",
            "logfile",
            "Write logs to the specified file instead of stdout.
             (placeholder. not implemented yet)",
            "PATH",
        );
        optflag(
            &mut opts,
            "",
            "nocapture",
            "don't capture stdout/stderr of each task, allow printing directly.
             (placeholder, not implemented yet)",
        );
        optopt(
            &mut opts,
            "",
            "test-threads",
            "Number of threads used for running tests in parallel.
             (placeholder, not implemented yet)",
            "n_threads",
        );
        optmulti(
            &mut opts,
            "",
            "skip",
            "Skip tests whose names contain FILTER (this flag can be used multiple times)",
            "FILTER",
        );
        optflag(
            &mut opts,
            "q",
            "quiet",
            "Display one character per test instead of one line. Alias to --format=terse",
        );
        optflag(&mut opts, "", "exact", "Exactly match filters rather than by substring");
        optopt(
            &mut opts,
            "",
            "color",
            "Configure coloring of output:
                auto   = colorize if stdout is a tty and tests are run on serially (default);
                always = always colorize output;
                never  = never colorize output;",
            "auto|always|never",
        );
        optopt(
            &mut opts,
            "",
            "format",
            "Configure formatting of output:
                pretty = Print verbose output;
                terse  = Display one character per test;
                json   = Output a json document (placeholder, not implemented yet)",
            "pretty|terse|json",
        );
        assert(declared(opts) =~= option_table());
        Parser { args, opts }
    }

    /// The usage text of the harness under the first line `brief`.
    pub fn usage(&self, brief: &str) -> (text: String)
        ensures
            text@ == usage_text(self.options(), brief@),
    {
        usage(&self.opts, brief)
    }

    /// Read the command line.
    ///
    /// A command line that does not fit the options gives the error that
    /// says why. One that asks for help gives `Ok(None)`. Any other
    /// is resolved into the arguments of the run, or into the first fault
    /// of an option's argument. `nocapture_env` says whether the
    /// environment asks for output not to be captured.
    pub fn parse_args(&self, nocapture_env: bool) -> (result: Result<Option<Args>, ArgsError>)
        requires
            self.wf(),
        ensures
            match parsed(self.options(), tail(texts_of(self.args()))) {
                Err(fault) => is_options_fault(fault) && (result matches Err(err) && err@ == fault),
                Ok(matches) => resolves(held_by(matches), nocapture_env, result),
            },
    {
        let rest = tail_of(&self.args);
        proof {
            lemma_table_well_declared();
        }
        match parse(&self.opts, &rest) {
            Err(err) => Err(err),
            Ok(matches) => {
                let held = read(&matches);
                Args::resolve(&held, nocapture_env)
            },
        }
    }
}

/// The options of the harness have names that can be declared.
proof fn lemma_table_well_declared()
    ensures
        well_declared(option_table()),
{
    reveal_strlit("");
    reveal_strlit("h");
    reveal_strlit("q");
    reveal_strlit("ignored");
    reveal_strlit("test");
    reveal_strlit("bench");
    reveal_strlit("list");
    reveal_strlit("help");
    reveal_strlit("nocapture");
    reveal_strlit("quiet");
    reveal_strlit("exact");
    reveal_strlit("logfile");
    reveal_strlit("test-threads");
    reveal_strlit("color");
    reveal_strlit("format");
    reveal_strlit("skip");
}

} // verus!
