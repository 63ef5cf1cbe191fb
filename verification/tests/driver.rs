use mimicaw::driver::{first_conflict, list_tests, Plan, TestDriver};
use mimicaw::filter::Decision;
use mimicaw::test::{TestDesc, TestKind};
use mimicaw::{run_tests, run_tests_with_report, Args, Outcome};

fn three() -> Vec<TestDesc> {
    vec![
        TestDesc::new("one", TestKind::Test, false),
        TestDesc::new("two_longer", TestKind::Test, true),
        TestDesc::new("three_is_a_benchmark", TestKind::Bench, false),
    ]
}

#[test]
fn duplicate_name_fails_the_run_without_a_report() {
    let descs = vec![
        TestDesc::new("same", TestKind::Test, false),
        TestDesc::new("other", TestKind::Test, false),
        TestDesc::new("same", TestKind::Bench, true),
    ];
    let signals = vec![Some(Outcome::passed()), Some(Outcome::passed()), None];
    let args = Args::default();
    match run_tests_with_report(&args, &descs, &signals) {
        Err(status) => assert_eq!(status.code(), 101),
        Ok(report) => panic!("unexpected report: {:?}", report),
    }
    assert_eq!(run_tests(&args, &descs, &signals).code(), 101);
    assert!(matches!(TestDriver::new(&args).plan(&descs), Plan::Conflict(2)));
}

#[test]
fn duplicate_name_is_found_before_listing() {
    let descs = vec![
        TestDesc::new("same", TestKind::Test, false),
        TestDesc::new("same", TestKind::Test, false),
    ];
    let mut args = Args::default();
    args.list = true;
    assert!(matches!(TestDriver::new(&args).plan(&descs), Plan::Conflict(1)));
    assert_eq!(run_tests(&args, &descs, &Vec::new()).code(), 101);
}

#[test]
fn first_conflict_is_the_first_repeated_name() {
    let descs = vec![
        TestDesc::new("a", TestKind::Test, false),
        TestDesc::new("b", TestKind::Test, false),
        TestDesc::new("b", TestKind::Test, false),
        TestDesc::new("a", TestKind::Test, false),
    ];
    assert_eq!(first_conflict(&descs), Some(2));
    assert_eq!(first_conflict(&three()), None);
    assert_eq!(first_conflict(&Vec::new()), None);
}

#[test]
fn list_starts_nothing_and_succeeds() {
    let descs = three();
    let signals = vec![Some(Outcome::failed()), Some(Outcome::failed()), Some(Outcome::failed())];
    let mut args = Args::default();
    args.list = true;
    match run_tests_with_report(&args, &descs, &signals) {
        Err(status) => assert_eq!(status.code(), 0),
        Ok(report) => panic!("unexpected report: {:?}", report),
    }
    assert_eq!(run_tests(&args, &descs, &signals).code(), 0);
    match TestDriver::new(&args).plan(&descs) {
        Plan::List(listing) => {
            assert_eq!(
                listing.names,
                vec!["one".to_string(), "two_longer".to_string(), "three_is_a_benchmark".to_string()]
            );
            assert_eq!(listing.num_tests, 2);
            assert_eq!(listing.num_benches, 1);
        }
        other => panic!("unexpected plan: {:?}", other),
    }
}

#[test]
fn listing_ignores_the_filter() {
    let mut args = Args::default();
    args.list = true;
    args.filter = Some("nothing matches this".to_string());
    match TestDriver::new(&args).plan(&three()) {
        Plan::List(listing) => assert_eq!(listing.names.len(), 3),
        other => panic!("unexpected plan: {:?}", other),
    }
}

#[test]
fn listing_counts_tests_and_benchmarks() {
    let listing = list_tests(&three());
    assert_eq!(listing.num_tests, 2);
    assert_eq!(listing.num_benches, 1);
    let empty = list_tests(&Vec::new());
    assert_eq!((empty.names.len(), empty.num_tests, empty.num_benches), (0, 0, 0));
}

#[test]
fn plan_decides_on_every_case() {
    let mut args = Args::default();
    args.run_benchmarks = false;
    match TestDriver::new(&args).plan(&three()) {
        Plan::Run { decisions, name_length } => {
            assert_eq!(
                decisions,
                vec![Decision::WillRun, Decision::WillSkip, Decision::FilteredOut]
            );
            assert_eq!(name_length, "two_longer".len());
        }
        other => panic!("unexpected plan: {:?}", other),
    }
}

#[test]
fn name_length_counts_bytes_of_the_cases_not_filtered_out() {
    let descs = vec![
        TestDesc::new("é", TestKind::Test, false),
        TestDesc::new("a_very_long_name_that_is_filtered_out", TestKind::Bench, false),
    ];
    let mut args = Args::default();
    args.run_benchmarks = false;
    match TestDriver::new(&args).plan(&descs) {
        Plan::Run { name_length, .. } => assert_eq!(name_length, 2),
        other => panic!("unexpected plan: {:?}", other),
    }
    let mut none = Args::default();
    none.filter = Some("zzz".to_string());
    match TestDriver::new(&none).plan(&descs) {
        Plan::Run { name_length, .. } => assert_eq!(name_length, 0),
        other => panic!("unexpected plan: {:?}", other),
    }
}

#[test]
fn run_without_cases_succeeds() {
    let report = run_tests_with_report(&Args::default(), &Vec::new(), &Vec::new()).unwrap();
    assert!(report.passed.is_empty());
    assert_eq!(report.status().code(), 0);
}
