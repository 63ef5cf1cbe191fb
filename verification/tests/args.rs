use mimicaw::args::{status_of, ArgsError, Matched, TestThreads};
use mimicaw::parser::Parser;
use mimicaw::text::{format_u64, parse_usize, IntErrorKind};
use mimicaw::{Args, ColorConfig, OutputFormat};

fn command_line(args: &[&str]) -> Vec<String> {
    let mut line = vec!["harness".to_string()];
    line.extend(args.iter().map(|a| a.to_string()));
    line
}

fn parse(args: &[&str]) -> Result<Option<Args>, ArgsError> {
    Parser::new(command_line(args)).parse_args(false)
}

fn parsed(args: &[&str]) -> Args {
    parse(args).unwrap().unwrap()
}

#[test]
fn empty_command_line_gives_the_defaults() {
    let args = parsed(&[]);
    let defaults = Args::default();
    assert_eq!(args.list, defaults.list);
    assert_eq!(args.filter, defaults.filter);
    assert_eq!(args.filter_exact, defaults.filter_exact);
    assert_eq!(args.run_ignored, defaults.run_ignored);
    assert_eq!(args.run_tests, defaults.run_tests);
    assert_eq!(args.run_benchmarks, defaults.run_benchmarks);
    assert_eq!(args.logfile, defaults.logfile);
    assert_eq!(args.nocapture, defaults.nocapture);
    assert_eq!(args.color, defaults.color);
    assert_eq!(args.format, defaults.format);
    assert_eq!(args.test_threads, defaults.test_threads);
    assert_eq!(args.skip, defaults.skip);
    assert!(args.run_tests);
    assert!(args.run_benchmarks);
    assert_eq!(args.color, ColorConfig::Auto);
    assert_eq!(args.format, OutputFormat::Pretty);
}

#[test]
fn command_line_without_program_name_gives_the_defaults() {
    let args = Parser::new(Vec::new()).parse_args(false).unwrap().unwrap();
    assert!(args.run_tests);
    assert_eq!(args.filter, None);
}

#[test]
fn flags_are_read() {
    let args = parsed(&["--ignored", "--exact", "--list", "--nocapture"]);
    assert!(args.run_ignored);
    assert!(args.filter_exact);
    assert!(args.list);
    assert!(args.nocapture);
}

#[test]
fn positional_argument_is_the_filter() {
    let args = parsed(&["alpha", "beta"]);
    assert_eq!(args.filter, Some("alpha".to_string()));
    let args = parsed(&["--exact", "alpha"]);
    assert_eq!(args.filter, Some("alpha".to_string()));
    assert!(args.filter_exact);
}

#[test]
fn skip_can_be_given_many_times() {
    let args = parsed(&["--skip", "beta", "--skip=gamma", "alpha"]);
    assert_eq!(args.skip, vec!["beta".to_string(), "gamma".to_string()]);
    assert_eq!(args.filter, Some("alpha".to_string()));
}

#[test]
fn bench_runs_benchmarks_instead_of_tests() {
    let args = parsed(&["--bench"]);
    assert!(args.run_benchmarks);
    assert!(!args.run_tests);
    let args = parsed(&["--bench", "--test"]);
    assert!(args.run_benchmarks);
    assert!(args.run_tests);
    let args = parsed(&["--test"]);
    assert!(!args.run_benchmarks);
    assert!(args.run_tests);
    let args = parsed(&[]);
    assert!(args.run_benchmarks);
    assert!(args.run_tests);
}

#[test]
fn status_of_a_parsed_command_line() {
    assert!(status_of(&parse(&["--list"])).is_none());
    assert_eq!(status_of(&parse(&["--help"])).map(|s| s.code()), Some(0));
    assert_eq!(status_of(&parse(&["--frobnicate"])).map(|s| s.code()), Some(101));
    assert_eq!(status_of(&parse(&["--color", "purple"])).map(|s| s.code()), Some(101));
    assert_eq!(status_of(&parse(&["--test-threads", "0"])).map(|s| s.code()), Some(101));
}

#[test]
fn help_gives_no_arguments() {
    assert!(parse(&["-h"]).unwrap().is_none());
    assert!(parse(&["--help", "--color", "purple"]).unwrap().is_none());
}

#[test]
fn quiet_is_an_alias_for_the_terse_format() {
    assert_eq!(parsed(&["-q"]).format, OutputFormat::Terse);
    assert_eq!(parsed(&["--quiet"]).format, OutputFormat::Terse);
    assert_eq!(parsed(&["--quiet", "--format", "pretty"]).format, OutputFormat::Pretty);
    assert_eq!(parsed(&["--format=json"]).format, OutputFormat::Json);
    assert_eq!(parsed(&["--format", "terse"]).format, OutputFormat::Terse);
}

#[test]
fn color_is_read() {
    assert_eq!(parsed(&["--color", "always"]).color, ColorConfig::Always);
    assert_eq!(parsed(&["--color=never"]).color, ColorConfig::Never);
    assert_eq!(parsed(&["--color", "auto"]).color, ColorConfig::Auto);
}

#[test]
fn logfile_and_threads_are_read() {
    let args = parsed(&["--logfile", "out.log", "--test-threads", "4"]);
    assert_eq!(args.logfile, Some("out.log".to_string()));
    assert_eq!(args.test_threads, Some(4));
}

#[test]
fn environment_can_ask_for_nocapture() {
    let args = Parser::new(command_line(&[])).parse_args(true).unwrap().unwrap();
    assert!(args.nocapture);
}

#[test]
fn unrecognized_option_is_an_error() {
    match parse(&["--frobnicate"]) {
        Err(ArgsError::UnrecognizedOption(name)) => assert_eq!(name, "frobnicate"),
        other => panic!("unexpected result: {:?}", other),
    }
    assert_eq!(
        parse(&["--frobnicate"]).unwrap_err().message(),
        "Unrecognized option: 'frobnicate'"
    );
}

#[test]
fn missing_argument_is_an_error() {
    match parse(&["--color"]) {
        Err(ArgsError::ArgumentMissing(name)) => assert_eq!(name, "color"),
        other => panic!("unexpected result: {:?}", other),
    }
    assert_eq!(parse(&["--color"]).unwrap_err().message(), "Argument to option 'color' missing");
}

#[test]
fn option_given_twice_is_an_error() {
    match parse(&["--list", "--list"]) {
        Err(ArgsError::OptionDuplicated(name)) => assert_eq!(name, "list"),
        other => panic!("unexpected result: {:?}", other),
    }
    assert_eq!(
        parse(&["--list", "--list"]).unwrap_err().message(),
        "Option 'list' given more than once"
    );
}

#[test]
fn argument_for_a_flag_is_an_error() {
    match parse(&["--list=yes"]) {
        Err(ArgsError::UnexpectedArgument(name)) => assert_eq!(name, "list"),
        other => panic!("unexpected result: {:?}", other),
    }
    assert_eq!(
        parse(&["--list=yes"]).unwrap_err().message(),
        "Option 'list' does not take an argument"
    );
}

#[test]
fn other_option_errors_have_messages() {
    assert_eq!(
        ArgsError::OptionMissing("needed".to_string()).message(),
        "Required option 'needed' missing"
    );
}

#[test]
fn option_errors_are_worded_as_getopts_words_them() {
    let name = "some-option".to_string();
    assert_eq!(
        ArgsError::ArgumentMissing(name.clone()).message(),
        getopts::Fail::ArgumentMissing(name.clone()).to_string()
    );
    assert_eq!(
        ArgsError::UnrecognizedOption(name.clone()).message(),
        getopts::Fail::UnrecognizedOption(name.clone()).to_string()
    );
    assert_eq!(
        ArgsError::OptionMissing(name.clone()).message(),
        getopts::Fail::OptionMissing(name.clone()).to_string()
    );
    assert_eq!(
        ArgsError::OptionDuplicated(name.clone()).message(),
        getopts::Fail::OptionDuplicated(name.clone()).to_string()
    );
    assert_eq!(
        ArgsError::UnexpectedArgument(name.clone()).message(),
        getopts::Fail::UnexpectedArgument(name).to_string()
    );
}

#[test]
fn thread_count_errors_are_worded_as_the_standard_parser_words_them() {
    for (input, kind) in [
        ("", IntErrorKind::Empty),
        ("x", IntErrorKind::InvalidDigit),
        ("99999999999999999999999999", IntErrorKind::PosOverflow),
    ] {
        let std_error = input.parse::<usize>().unwrap_err();
        assert_eq!(
            ArgsError::TestThreads(kind).message(),
            format!("argument for --test-threads must be a number > 0 (error: {})", std_error)
        );
        assert_eq!(parse_usize(input), Err(kind));
    }
}

#[test]
fn usage_is_the_usage_of_getopts() {
    let mut opts = getopts::Options::new();
    opts.optflag("", "ignored", "Run only ignored tests");
    opts.optflag("", "test", "Run tests and not benchmarks");
    opts.optflag("", "bench", "Run benchmarks instead of tests");
    opts.optflag("", "list", "List all tests and benchmarks");
    opts.optflag("h", "help", "Display this message (longer with --help)");
    opts.optopt(
        "",
        "logfile",
        "Write logs to the specified file instead of stdout.
             (placeholder. not implemented yet)",
        "PATH",
    );
    opts.optflag(
        "",
        "nocapture",
        "don't capture stdout/stderr of each task, allow printing directly.
             (placeholder, not implemented yet)",
    );
    opts.optopt(
        "",
        "test-threads",
        "Number of threads used for running tests in parallel.
             (placeholder, not implemented yet)",
        "n_threads",
    );
    opts.optmulti(
        "",
        "skip",
        "Skip tests whose names contain FILTER (this flag can be used multiple times)",
        "FILTER",
    );
    opts.optflag(
        "q",
        "quiet",
        "Display one character per test instead of one line. Alias to --format=terse",
    );
    opts.optflag(
        "",
        "exact",
        "Exactly match filters rather than by substring",
    );
    opts.optopt(
        "",
        "color",
        "Configure coloring of output:
                auto   = colorize if stdout is a tty and tests are run on serially (default);
                always = always colorize output;
                never  = never colorize output;",
        "auto|always|never",
    );
    opts.optopt(
        "",
        "format",
        "Configure formatting of output:
                pretty = Print verbose output;
                terse  = Display one character per test;
                json   = Output a json document (placeholder, not implemented yet)",
        "pretty|terse|json",
    );
    let brief = "Usage: harness [OPTIONS] [FILTER]";
    assert_eq!(Parser::new(command_line(&[])).usage(brief), opts.usage(brief));
}

#[test]
fn invalid_color_is_an_error() {
    match parse(&["--color", "purple"]) {
        Err(ArgsError::InvalidColor(was)) => assert_eq!(was, "purple"),
        other => panic!("unexpected result: {:?}", other),
    }
    assert_eq!(
        parse(&["--color", "purple"]).unwrap_err().message(),
        "argument for --color must be auto, always, or never (was purple)"
    );
}

#[test]
fn invalid_format_is_an_error() {
    match parse(&["--format", "xml"]) {
        Err(ArgsError::InvalidFormat(was)) => assert_eq!(was, "xml"),
        other => panic!("unexpected result: {:?}", other),
    }
    assert_eq!(
        parse(&["--format", "xml"]).unwrap_err().message(),
        "argument for --format must be pretty, terse, or json (was xml)"
    );
}

#[test]
fn invalid_thread_counts_are_errors() {
    assert!(matches!(parse(&["--test-threads", "0"]), Err(ArgsError::TestThreadsZero)));
    assert!(matches!(
        parse(&["--test-threads", "four"]),
        Err(ArgsError::TestThreads(IntErrorKind::InvalidDigit))
    ));
    assert!(matches!(
        parse(&["--test-threads="]),
        Err(ArgsError::TestThreads(IntErrorKind::Empty))
    ));
    assert_eq!(
        ArgsError::TestThreadsZero.message(),
        "argument for --test-threads must not be 0"
    );
    assert_eq!(
        ArgsError::TestThreads(IntErrorKind::InvalidDigit).message(),
        "argument for --test-threads must be a number > 0 (error: invalid digit found in string)"
    );
    assert_eq!(
        ArgsError::TestThreads(IntErrorKind::Empty).message(),
        "argument for --test-threads must be a number > 0 (error: cannot parse integer from empty string)"
    );
    assert_eq!(
        ArgsError::TestThreads(IntErrorKind::PosOverflow).message(),
        "argument for --test-threads must be a number > 0 (error: number too large to fit in target type)"
    );
}

#[test]
fn first_fault_is_reported_in_the_order_threads_color_format() {
    let mut held = Matched::default();
    held.test_threads = Some("0".to_string());
    held.color = Some("purple".to_string());
    held.format = Some("xml".to_string());
    assert!(matches!(Args::resolve(&held, false), Err(ArgsError::TestThreadsZero)));
    held.test_threads = None;
    assert!(matches!(Args::resolve(&held, false), Err(ArgsError::InvalidColor(_))));
    held.color = None;
    assert!(matches!(Args::resolve(&held, false), Err(ArgsError::InvalidFormat(_))));
    held.help = true;
    assert!(matches!(Args::resolve(&held, false), Ok(None)));
}

#[test]
fn resolve_takes_the_first_free_argument_as_the_filter() {
    let mut held = Matched::default();
    held.free = vec!["one".to_string(), "two".to_string()];
    held.skip = vec!["three".to_string()];
    held.bench = true;
    held.quiet = true;
    let args = Args::resolve(&held, false).unwrap().unwrap();
    assert_eq!(args.filter, Some("one".to_string()));
    assert_eq!(args.skip, vec!["three".to_string()]);
    assert!(args.run_benchmarks);
    assert!(!args.run_tests);
    assert_eq!(args.format, OutputFormat::Terse);
}

#[test]
fn color_config_from_str() {
    assert!(matches!(ColorConfig::from_str("auto"), Ok(ColorConfig::Auto)));
    assert!(matches!(ColorConfig::from_str("always"), Ok(ColorConfig::Always)));
    assert!(matches!(ColorConfig::from_str("never"), Ok(ColorConfig::Never)));
    assert!(matches!(ColorConfig::from_str("Auto"), Err(ArgsError::InvalidColor(_))));
    assert!(matches!(ColorConfig::from_str(""), Err(ArgsError::InvalidColor(_))));
}

#[test]
fn output_format_from_str() {
    assert!(matches!(OutputFormat::from_str("pretty"), Ok(OutputFormat::Pretty)));
    assert!(matches!(OutputFormat::from_str("terse"), Ok(OutputFormat::Terse)));
    assert!(matches!(OutputFormat::from_str("json"), Ok(OutputFormat::Json)));
    assert!(matches!(OutputFormat::from_str("yaml"), Err(ArgsError::InvalidFormat(_))));
}

#[test]
fn test_threads_from_str() {
    assert!(matches!(TestThreads::from_str("8"), Ok(TestThreads(8))));
    assert!(matches!(TestThreads::from_str("+8"), Ok(TestThreads(8))));
    assert!(matches!(TestThreads::from_str("008"), Ok(TestThreads(8))));
    assert!(matches!(TestThreads::from_str("0"), Err(ArgsError::TestThreadsZero)));
    assert!(matches!(TestThreads::from_str("-1"), Err(ArgsError::TestThreads(_))));
}

fn kind_of(error: &std::num::ParseIntError) -> IntErrorKind {
    match error.kind() {
        std::num::IntErrorKind::Empty => IntErrorKind::Empty,
        std::num::IntErrorKind::InvalidDigit => IntErrorKind::InvalidDigit,
        std::num::IntErrorKind::PosOverflow => IntErrorKind::PosOverflow,
        other => panic!("unexpected kind: {:?}", other),
    }
}

#[test]
fn parse_usize_agrees_with_the_standard_parser() {
    let max = usize::MAX.to_string();
    let over = format!("{}0", max);
    let over_then_letter = format!("{}a", over);
    let letter_then_over = format!("a{}", over);
    let cases = [
        "0", "7", "42", "+42", "0042", "", "+", "-", "-5", "+-5", "++5", "4 2", " 42", "42 ",
        "4_2", "0x10", "٣", "1e3", max.as_str(), over.as_str(), "99999999999999999999999999",
        "99999999999999999999a", over_then_letter.as_str(), letter_then_over.as_str(),
        "000000000000000000000000000000000000000007", "+0",
    ];
    for case in cases {
        let expected = case.parse::<usize>().map_err(|e| kind_of(&e));
        assert_eq!(parse_usize(case), expected, "input {:?}", case);
    }
    assert_eq!(parse_usize(""), Err(IntErrorKind::Empty));
    assert_eq!(parse_usize("+"), Err(IntErrorKind::InvalidDigit));
    assert_eq!(parse_usize("12a"), Err(IntErrorKind::InvalidDigit));
    assert_eq!(parse_usize(&over), Err(IntErrorKind::PosOverflow));
    assert_eq!(parse_usize(&over_then_letter), Err(IntErrorKind::PosOverflow));
    assert_eq!(parse_usize(&letter_then_over), Err(IntErrorKind::InvalidDigit));
    assert_eq!(parse_usize(&max), Ok(usize::MAX));
}

#[test]
fn format_u64_writes_base_ten() {
    for n in [0u64, 7, 10, 42, 100, 1234567890, u64::MAX] {
        assert_eq!(format_u64(n), n.to_string());
    }
}

#[test]
fn usage_names_the_options() {
    let usage = Parser::new(command_line(&[])).usage("Usage: harness [OPTIONS] [FILTER]");
    assert!(usage.starts_with("Usage: harness [OPTIONS] [FILTER]"));
    for option in ["--ignored", "--test", "--bench", "--list", "--help", "--skip", "--exact"] {
        assert!(usage.contains(option), "usage lacks {}", option);
    }
}
