use mimicaw::filter::{decide, decide_from, Decision};
use mimicaw::test::{TestDesc, TestKind};
use mimicaw::Args;

fn test_case(name: &str, ignored: bool) -> TestDesc {
    TestDesc::new(name, TestKind::Test, ignored)
}

fn selected(names: &[&str], args: &Args) -> Vec<String> {
    let mut out = Vec::new();
    for name in names {
        if decide(&test_case(name, false), args) == Decision::WillRun {
            out.push(name.to_string());
        }
    }
    out
}

#[test]
fn truth_table_of_filtered_and_run_ignored() {
    // (filtered, run_ignored) = (false, false): runs.
    assert_eq!(decide_from(false, false, false), Decision::WillRun);
    // (false, true): held back.
    assert_eq!(decide_from(false, false, true), Decision::WillSkip);
    // (true, false), filtered by the ignored mark: held back.
    assert_eq!(decide_from(false, true, false), Decision::WillSkip);
    // (true, false), filtered by exclusion: filtered out, with or without the mark.
    assert_eq!(decide_from(true, false, false), Decision::FilteredOut);
    assert_eq!(decide_from(true, true, false), Decision::FilteredOut);
    // (true, true): runs, whatever filtered it.
    assert_eq!(decide_from(false, true, true), Decision::WillRun);
    assert_eq!(decide_from(true, false, true), Decision::WillRun);
    assert_eq!(decide_from(true, true, true), Decision::WillRun);
}

#[test]
fn default_args_run_a_plain_test() {
    let args = Args::default();
    assert_eq!(decide(&test_case("plain", false), &args), Decision::WillRun);
}

#[test]
fn run_ignored_skips_a_plain_test() {
    let mut args = Args::default();
    args.run_ignored = true;
    assert_eq!(decide(&test_case("plain", false), &args), Decision::WillSkip);
}

#[test]
fn default_args_skip_an_ignored_test() {
    let args = Args::default();
    assert_eq!(decide(&test_case("slow", true), &args), Decision::WillSkip);
}

#[test]
fn run_ignored_runs_an_ignored_test() {
    let mut args = Args::default();
    args.run_ignored = true;
    assert_eq!(decide(&test_case("slow", true), &args), Decision::WillRun);
}

#[test]
fn substring_filter_selects_names_that_contain_it() {
    let mut args = Args::default();
    args.filter = Some("alpha".to_string());
    assert_eq!(
        selected(&["alpha", "beta", "alphabeta"], &args),
        vec!["alpha".to_string(), "alphabeta".to_string()]
    );
    assert_eq!(decide(&test_case("beta", false), &args), Decision::FilteredOut);
}

#[test]
fn exact_filter_selects_the_equal_name_only() {
    let mut args = Args::default();
    args.filter = Some("alpha".to_string());
    args.filter_exact = true;
    assert_eq!(selected(&["alpha", "beta", "alphabeta"], &args), vec!["alpha".to_string()]);
    assert_eq!(decide(&test_case("alphabeta", false), &args), Decision::FilteredOut);
}

#[test]
fn skip_pattern_filters_out_what_matches_it() {
    let mut args = Args::default();
    args.skip = vec!["beta".to_string()];
    assert_eq!(selected(&["alpha", "beta"], &args), vec!["alpha".to_string()]);
    assert_eq!(decide(&test_case("beta", false), &args), Decision::FilteredOut);
    assert!(args.is_filtered("beta"));
    assert!(!args.is_filtered("alpha"));
}

#[test]
fn skip_pattern_matches_by_substring() {
    let mut args = Args::default();
    args.skip = vec!["slow".to_string(), "net".to_string()];
    assert!(args.is_filtered("very_slow_case"));
    assert!(args.is_filtered("network"));
    assert!(!args.is_filtered("fast"));
}

#[test]
fn exact_skip_pattern_matches_the_equal_name_only() {
    let mut args = Args::default();
    args.skip = vec!["beta".to_string()];
    args.filter_exact = true;
    assert!(args.is_filtered("beta"));
    assert!(!args.is_filtered("alphabeta"));
}

#[test]
fn empty_filter_matches_every_name() {
    let mut args = Args::default();
    args.filter = Some(String::new());
    assert!(!args.is_filtered("anything"));
    assert!(!args.is_filtered(""));
}

#[test]
fn filter_and_skip_together() {
    let mut args = Args::default();
    args.filter = Some("alpha".to_string());
    args.skip = vec!["beta".to_string()];
    assert_eq!(selected(&["alpha", "beta", "alphabeta", "gamma"], &args), vec!["alpha".to_string()]);
}

#[test]
fn benchmark_is_filtered_out_unless_benchmarks_run() {
    let bench = TestDesc::new("speed", TestKind::Bench, false);
    let mut args = Args::default();
    assert_eq!(decide(&bench, &args), Decision::WillRun);
    args.run_benchmarks = false;
    assert_eq!(decide(&bench, &args), Decision::FilteredOut);
}

#[test]
fn test_is_filtered_out_when_only_benchmarks_run() {
    let mut args = Args::default();
    args.run_tests = false;
    assert_eq!(decide(&test_case("plain", false), &args), Decision::FilteredOut);
}

#[test]
fn excluded_and_ignored_is_filtered_out() {
    let mut args = Args::default();
    args.filter = Some("alpha".to_string());
    assert_eq!(decide(&test_case("beta", true), &args), Decision::FilteredOut);
}

#[test]
fn run_ignored_inverts_every_decision() {
    let names = ["alpha", "beta", "alphabeta"];
    for ignored in [false, true] {
        for name in names {
            let mut args = Args::default();
            args.filter = Some("alpha".to_string());
            let plain = decide(&test_case(name, ignored), &args) == Decision::WillRun;
            args.run_ignored = true;
            let inverted = decide(&test_case(name, ignored), &args) == Decision::WillRun;
            assert_ne!(plain, inverted);
        }
    }
}
