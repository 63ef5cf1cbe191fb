//! What a run tells its observers: the state in which each case ends, and
//! whether the run as a whole failed.

use vstd::prelude::*;
use vstd::string::StringExecFns;
use crate::test::OutcomeKind;
use crate::text::{decimal, push_u64};

verus! {

/// The state in which a case that was not filtered out ends.
#[derive(Debug)]
#[non_exhaustive]
pub enum Outcome {
    Passed,
    Failed { msg: Option<String> },
    Ignored,
    Measured { average: u64, variance: u64 },
    /// The body of the case went away without reporting. Nobody asks for
    /// this state: it stands for a signal that was lost.
    Canceled,
}

/// The state that a started case ends in, given what came over its
/// channel: what the body reported, or `Canceled` where the sending side
/// was dropped with nothing sent.
pub open spec fn received(signal: Option<crate::test::Outcome>) -> Outcome {
    match signal {
        None => Outcome::Canceled,
        Some(reported) => match reported.spec_kind() {
            OutcomeKind::Passed => Outcome::Passed,
            OutcomeKind::Failed => Outcome::Failed { msg: reported.spec_err_msg() },
            OutcomeKind::Measured { average, variance } => Outcome::Measured { average, variance },
        },
    }
}

impl Clone for Outcome {
    fn clone(&self) -> (copy: Self)
        ensures
            copy == *self,
    {
        match self {
            Outcome::Passed => Outcome::Passed,
            Outcome::Failed { msg } => Outcome::Failed {
                msg: match msg {
                    Some(text) => Some(text.clone()),
                    None => None,
                },
            },
            Outcome::Ignored => Outcome::Ignored,
            Outcome::Measured { average, variance } => Outcome::Measured {
                average: *average,
                variance: *variance,
            },
            Outcome::Canceled => Outcome::Canceled,
        }
    }
}

impl Outcome {
    /// Resolve the channel of a started case: a case whose body reported
    /// ends as it reported, and one whose sending side was dropped unsent
    /// ends as `Canceled`. Every started case thus ends in some state.
    pub fn received(signal: Option<crate::test::Outcome>) -> (outcome: Self)
        ensures
            outcome == received(signal),
    {
        match signal {
            None => Outcome::Canceled,
            Some(reported) => {
                let (kind, err_msg) = reported.deconstruct();
                match kind {
                    OutcomeKind::Passed => Outcome::Passed,
                    OutcomeKind::Failed => Outcome::Failed { msg: err_msg },
                    OutcomeKind::Measured { average, variance } => Outcome::Measured {
                        average,
                        variance,
                    },
                }
            },
        }
    }

    /// Whether the state counts as a failure of the run: a failed case
    /// does, and so does one whose signal was lost.
    pub open spec fn is_failure(&self) -> bool {
        self is Failed || self is Canceled
    }

    /// Whether the state counts as a failure of the run.
    #[verifier::when_used_as_spec(is_failure)]
    pub fn counts_as_failure(&self) -> (yes: bool)
        ensures
            yes == self.is_failure(),
    {
        match self {
            Outcome::Failed { .. } => true,
            Outcome::Canceled => true,
            _ => false,
        }
    }
}

/// The summary of a run: whether any case failed.
#[derive(Debug)]
#[must_use]
pub struct Report {
    pub(crate) has_failed: bool,
}

impl Report {
    /// Whether any case failed, for contracts.
    pub closed spec fn spec_has_failed(&self) -> bool {
        self.has_failed
    }

    /// The summary of a run in which some case failed, or none did.
    pub fn new(has_failed: bool) -> (report: Self)
        ensures
            report.has_failed() == has_failed,
    {
        Report { has_failed }
    }

    /// Whether any case failed.
    #[verifier::when_used_as_spec(spec_has_failed)]
    pub fn has_failed(&self) -> (yes: bool)
        ensures
            yes == self.spec_has_failed(),
    {
        self.has_failed
    }

    /// The code with which the process ends after this run: 101 if any
    /// case failed, else 0.
    pub fn exit_code(&self) -> (code: i32)
        ensures
            code == (if self.has_failed() {
                101i32
            } else {
                0i32
            }),
    {
        if self.has_failed {
            101
        } else {
            0
        }
    }
}

/// An observer of a run. The harness calls `dump_result` once for each
/// case that was not filtered out, in the order of registration, and then
/// `dump_summary` once.
pub trait EventHandler {
    fn list_tests(&self, tests: &[String]);

    fn dump_result(&self, name: &str, outcome: Outcome);

    fn dump_summary(&self, report: &Report);
}

/// The line that tells how the case named `name` ended.
pub open spec fn result_text(name: Seq<char>, outcome: Outcome) -> Seq<char> {
    match outcome {
        Outcome::Passed => name + ": passed"@,
        Outcome::Ignored => name + ": ignored"@,
        Outcome::Canceled => name + ": canceled"@,
        Outcome::Measured { average, variance } => name + ": measured (avg="@ + decimal(
            average as nat,
        ) + ", var="@ + decimal(variance as nat) + ")"@,
        Outcome::Failed { msg: Some(msg) } => name + ": failed:\n"@ + msg@,
        Outcome::Failed { msg: None } => name + ": failed"@,
    }
}

/// The observer that tells each result in one line of plain text and
/// says nothing of the list and of the summary. It makes the lines;
/// writing them out is left to the host.
#[derive(Debug, Default)]
pub struct DefaultEventHandler(());

impl DefaultEventHandler {
    /// The line for the result of the case named `name`, without the end
    /// of line.
    pub fn result_line(&self, name: &str, outcome: &Outcome) -> (line: String)
        ensures
            line@ == result_text(name@, *outcome),
    {
        let start = name.to_owned();
        match outcome {
            Outcome::Passed => start.concat(": passed"),
            Outcome::Ignored => start.concat(": ignored"),
            Outcome::Canceled => start.concat(": canceled"),
            Outcome::Measured { average, variance } => {
                let line = push_u64(start.concat(": measured (avg="), *average);
                let line = push_u64(line.concat(", var="), *variance);
                line.concat(")")
            },
            Outcome::Failed { msg } => match msg {
                Some(msg) => start.concat(": failed:\n").concat(msg.as_str()),
                None => start.concat(": failed"),
            },
        }
    }
}

} // verus!
