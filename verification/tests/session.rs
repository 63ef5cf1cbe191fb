use mimicaw::event;
use mimicaw::report::Settled;
use mimicaw::suite::TestSuite;
use mimicaw::{Args, Outcome};

fn suite_of_four() -> TestSuite {
    let mut args = Args::default();
    args.run_benchmarks = false;
    let mut suite = TestSuite::new(args);
    assert!(suite.add_test("first", false).is_some());
    assert!(suite.add_test("held", true).is_none());
    assert!(suite.add_benchmark("out", false).is_none());
    assert!(suite.add_test("last", false).is_some());
    suite
}

#[test]
fn run_is_complete_when_every_started_case_has_resolved() {
    let mut session = suite_of_four().start();
    assert_eq!(session.len(), 4);
    assert!(!session.is_complete());
    assert!(session.is_awaited(0));
    assert!(!session.is_awaited(1));
    assert!(!session.is_awaited(2));
    assert!(session.is_awaited(3));
    assert!(!session.is_awaited(4));

    let event = session.resolve(3, Some(Outcome::passed()));
    assert!(matches!(event, Some(event::Outcome::Passed)));
    assert!(!session.is_complete());
    assert!(!session.is_awaited(3));

    let event = session.resolve(0, Some(Outcome::failed().error_message("x")));
    match event {
        Some(event::Outcome::Failed { msg }) => assert_eq!(msg, Some("x".to_string())),
        other => panic!("unexpected event: {:?}", other),
    }
    assert!(session.is_complete());

    let report = session.finish().unwrap();
    assert_eq!(report.passed.len(), 1);
    assert_eq!(report.passed[0].name(), "last");
    assert_eq!(report.failed.len(), 1);
    assert_eq!(report.failed[0].0.name(), "first");
    assert_eq!(report.ignored[0].name(), "held");
    assert_eq!(report.filtered_out[0].name(), "out");
    assert_eq!(report.status().code(), 101);
}

#[test]
fn run_that_waits_cannot_finish() {
    let mut session = suite_of_four().start();
    let _ = session.resolve(0, Some(Outcome::passed()));
    let mut session = match session.finish() {
        Err(session) => session,
        Ok(report) => panic!("unexpected report: {:?}", report),
    };
    assert!(session.is_awaited(3));
    let _ = session.resolve(3, Some(Outcome::passed()));
    let report = session.finish().unwrap();
    assert_eq!(report.passed.len(), 2);
    assert_eq!(report.status().code(), 0);
}

#[test]
fn dropped_sender_resolves_to_canceled() {
    let mut session = suite_of_four().start();
    let event = session.resolve(0, None);
    assert!(matches!(event, Some(event::Outcome::Canceled)));
    let _ = session.resolve(3, Some(Outcome::passed()));
    assert!(session.is_complete());
    let report = session.finish().unwrap();
    assert_eq!(report.failed.len(), 1);
    assert_eq!(report.failed[0].0.name(), "first");
    assert_eq!(report.failed[0].1, None);
    assert_eq!(report.status().code(), 101);
}

#[test]
fn channel_resolves_once() {
    let mut session = suite_of_four().start();
    assert!(session.resolve(0, Some(Outcome::passed())).is_some());
    assert!(session.resolve(0, Some(Outcome::failed())).is_none());
    assert!(session.resolve(0, None).is_none());
    let _ = session.resolve(3, Some(Outcome::passed()));
    let report = session.finish().unwrap();
    assert_eq!(report.passed.len(), 2);
    assert!(report.failed.is_empty());
}

#[test]
fn signal_for_a_case_that_was_not_started_is_dropped() {
    let mut session = suite_of_four().start();
    assert!(session.resolve(1, Some(Outcome::failed())).is_none());
    assert!(session.resolve(2, Some(Outcome::failed())).is_none());
    assert!(session.resolve(17, Some(Outcome::failed())).is_none());
    let _ = session.resolve(0, Some(Outcome::passed()));
    let _ = session.resolve(3, Some(Outcome::passed()));
    let report = session.finish().unwrap();
    assert!(report.failed.is_empty());
    assert_eq!(report.ignored.len(), 1);
    assert_eq!(report.filtered_out.len(), 1);
}

#[test]
fn state_of_a_case_is_known_once_it_has_ended() {
    let mut session = suite_of_four().start();
    assert!(session.state(0).is_none());
    assert!(matches!(session.state(1), Some(Settled::Outcome(event::Outcome::Ignored))));
    assert!(matches!(session.state(2), Some(Settled::FilteredOut)));
    assert!(session.state(4).is_none());
    let _ = session.resolve(0, Some(Outcome::measured(4, 2)));
    assert!(matches!(
        session.state(0),
        Some(Settled::Outcome(event::Outcome::Measured { average: 4, variance: 2 }))
    ));
    assert_eq!(session.desc(0).name(), "first");
    assert!(session.args().run_tests);
}

#[test]
fn run_without_started_cases_is_complete_at_once() {
    let mut suite = TestSuite::new(Args::default());
    assert!(suite.add_test("held", true).is_none());
    let session = suite.start();
    assert!(session.is_complete());
    let report = session.finish().unwrap();
    assert_eq!(report.ignored.len(), 1);
    assert_eq!(report.status().code(), 0);
}
