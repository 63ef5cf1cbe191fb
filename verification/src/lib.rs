//! The core of a harness for asynchronous tests.
//!
//! A host program registers test and benchmark cases, the harness decides
//! from the run's configuration which of them are to run, the host drives
//! the chosen ones concurrently, and the harness gathers what each of them
//! reported into a [`Report`] with an exit status for the process.
//!
//! Everything here works on plain values: nothing in this crate starts a
//! task, waits for one or touches the terminal. What a test body reported
//! comes in as `Option<Outcome>`, `None` standing for a body that went away
//! without reporting.
//!
//! * [`args`] and [`parser`]: the configuration of a run and how the
//!   command line gives it.
//! * [`filter`]: which cases a run executes.
//! * [`test`]: cases, their descriptions, and what a body reports.
//! * [`suite`]: the registry of a run, filled case by case.
//! * [`session`]: a run under way, channel by channel.
//! * [`driver`]: the plan and the report of a run over a list of cases.
//! * [`event`] and [`report`]: the state in which each case ends, and the
//!   report with its five buckets.
//! * [`printer`] and [`text`]: the text of results, lists and reports.

use vstd::prelude::*;

pub mod args;
pub mod driver;
pub mod event;
pub mod filter;
pub mod parser;
pub mod printer;
pub mod report;
pub mod session;
pub mod suite;
pub mod test;
pub mod text;

pub use crate::args::{Args, ColorConfig, OutputFormat};
pub use crate::driver::{run_tests, run_tests_with_report};
pub use crate::report::Report;
pub use crate::test::{Outcome, Test, TestDesc};

verus! {

/// Exit status code used as a result of the test process.
#[derive(Copy, Clone, Debug, PartialEq, Eq, Structural)]
pub struct ExitStatus(i32);

impl ExitStatus {
    /// The raw exit code, for contracts.
    pub closed spec fn spec_code(self) -> i32 {
        self.0
    }

    /// The status of a run in which nothing failed: code 0.
    pub fn ok() -> (status: Self)
        ensures
            status.code() == 0,
    {
        ExitStatus(0)
    }

    /// The status of a run that failed, or that could not start: code 101.
    pub fn failed() -> (status: Self)
        ensures
            status.code() == 101,
    {
        ExitStatus(101)
    }

    /// Return whether the status is successful or not.
    #[inline]
    pub fn success(self) -> (yes: bool)
        ensures
            yes == (self.code() == 0),
    {
        self.code() == 0
    }

    /// Return the raw exit code.
    #[inline]
    #[verifier::when_used_as_spec(spec_code)]
    pub fn code(self) -> (code: i32)
        ensures
            code == self.spec_code(),
    {
        self.0
    }

    /// The code with which the process has to end at once, if the status
    /// is not successful; `None` lets the process go on.
    ///
    /// A caller should not end the process on this before the cleanup of
    /// the test process has completed.
    #[inline]
    pub fn exit_if_failed(self) -> (code: Option<i32>)
        ensures
            code == (if self.code() == 0 {
                None
            } else {
                Some(self.code())
            }),
    {
        if !self.success() {
            Some(self.code())
        } else {
            None
        }
    }
}

} // verus!
