//! The driver of a run over a list of cases: what is to be done with the
//! cases before anything starts, and the report once everything ended.
//!
//! The host starts the cases that the plan names, drives them to their
//! ends side by side and collects what each sent over its channel; the
//! driver then settles every case and aggregates the report.

use vstd::hash_set::StringHashSet;
use vstd::prelude::*;
use vstd::utf8::encode_utf8;
use crate::args::{Args, RunConfig};
use crate::filter::{decide, decision, Decision};
use crate::report::{settled, Report};
use crate::suite::settle_all;
use crate::test::{distinct_names, has_name, name_set, Outcome, TestDesc};
use crate::ExitStatus;

verus! {

/// The case at place `j` has the name of a case before it.
pub open spec fn conflicts_at(descs: Seq<TestDesc>, j: int) -> bool {
    exists|i: int| 0 <= i < j && (#[trigger] descs[i])@.name == descs[j]@.name
}

/// The case at place `j` is the first that has the name of a case before
/// it.
pub open spec fn is_first_conflict(descs: Seq<TestDesc>, j: int) -> bool {
    &&& 0 <= j < descs.len()
    &&& conflicts_at(descs, j)
    &&& forall|k: int| 0 <= k < j ==> !conflicts_at(descs, k)
}

/// The number of bytes that a name takes.
pub open spec fn byte_len(name: Seq<char>) -> usize {
    encode_utf8(name).len() as usize
}

/// `n` is the greatest length in bytes of the names of the cases that the
/// run does not filter out, or 0 where it filters out every case.
pub open spec fn is_name_length(n: usize, descs: Seq<TestDesc>, cfg: RunConfig) -> bool {
    &&& forall|i: int|
        0 <= i < descs.len() && decision((#[trigger] descs[i])@, cfg) != Decision::FilteredOut
            ==> byte_len(descs[i]@.name) <= n
    &&& n == 0 || exists|i: int|
        0 <= i < descs.len() && decision((#[trigger] descs[i])@, cfg) != Decision::FilteredOut
            && byte_len(descs[i]@.name) == n
}

/// The decisions of the filter on the cases, in order.
pub open spec fn decisions(descs: Seq<TestDesc>, cfg: RunConfig) -> Seq<Decision> {
    Seq::new(descs.len(), |i: int| decision(descs[i]@, cfg))
}

/// The names of the cases, in order.
pub open spec fn names(descs: Seq<TestDesc>) -> Seq<Seq<char>> {
    Seq::new(descs.len(), |i: int| descs[i]@.name)
}

/// The number of benchmarks among the cases.
pub open spec fn count_benches(descs: Seq<TestDesc>) -> nat
    decreases descs.len(),
{
    if descs.len() == 0 {
        0
    } else {
        count_benches(descs.drop_last()) + (if descs.last()@.is_bench {
            1nat
        } else {
            0nat
        })
    }
}

/// There are no more benchmarks among the cases than cases.
pub proof fn lemma_count_benches_bound(descs: Seq<TestDesc>)
    ensures
        count_benches(descs) <= descs.len(),
    decreases descs.len(),
{
    if descs.len() > 0 {
        lemma_count_benches_bound(descs.drop_last());
    }
}

/// The cases of a run that only lists them.
#[derive(Debug)]
pub struct Listing {
    /// The names of the cases, in the order of registration.
    pub names: Vec<String>,
    /// The number of tests among them.
    pub num_tests: usize,
    /// The number of benchmarks among them.
    pub num_benches: usize,
}

/// What is to be done with the cases of a run.
#[derive(Debug)]
pub enum Plan {
    /// The case at this place has the name of a case before it: the run
    /// does not start.
    Conflict(usize),
    /// The run only lists its cases and starts none.
    List(Listing),
    /// The run goes on: the cases decided as `WillRun` are started, all
    /// at once.
    Run {
        /// The decision on each case, in order.
        decisions: Vec<Decision>,
        /// The greatest length in bytes of the names of the cases that
        /// are not filtered out.
        name_length: usize,
    },
}

/// The first case that has the name of a case before it, if there is one.
pub fn first_conflict(descs: &Vec<TestDesc>) -> (found: Option<usize>)
    ensures
        match found {
            Some(j) => is_first_conflict(descs@, j as int),
            None => distinct_names(descs@),
        },
        found is Some <==> !distinct_names(descs@),
{
    let mut seen = StringHashSet::new();
    let mut j: usize = 0;
    assert(seen@ =~= name_set(descs@.take(0)));
    while j < descs.len()
        invariant
            j <= descs.len(),
            seen@ == name_set(descs@.take(j as int)),
            forall|k: int| 0 <= k < j ==> !conflicts_at(descs@, k),
        decreases descs.len() - j,
    {
        let ghost before = descs@.take(j as int);
        let ghost after = descs@.take(j + 1);
        let fresh = seen.insert(descs[j].name().to_owned());
        proof {
            if has_name(before, descs@[j as int]@.name) {
                let i = choose|i: int|
                    0 <= i < before.len() && (#[trigger] before[i])@.name == descs@[j as int]@.name;
                assert(descs@[i]@.name == descs@[j as int]@.name);
            }
            if conflicts_at(descs@, j as int) {
                let i = choose|i: int|
                    0 <= i < j && (#[trigger] descs@[i])@.name == descs@[j as int]@.name;
                assert(before[i]@.name == descs@[j as int]@.name);
            }
        }
        if !fresh {
            return Some(j);
        }
        proof {
            assert forall|n: Seq<char>| has_name(after, n) <==> (has_name(before, n) || n
                == descs@[j as int]@.name) by {
                if has_name(before, n) {
                    let i = choose|i: int| 0 <= i < before.len() && (#[trigger] before[i])@.name == n;
                    assert(after[i]@.name == n);
                }
                if n == descs@[j as int]@.name {
                    assert(after[j as int]@.name == n);
                }
                if has_name(after, n) {
                    let i = choose|i: int| 0 <= i < after.len() && (#[trigger] after[i])@.name == n;
                    if i < j {
                        assert(before[i]@.name == n);
                    }
                }
            }
            assert(seen@ =~= name_set(after));
        }
        j += 1;
    }
    proof {
        assert forall|a: int, b: int| 0 <= a < b < descs@.len() implies descs@[a]@.name
            != descs@[b]@.name by {
            assert(!conflicts_at(descs@, b));
        }
    }
    None
}

/// List the cases: their names in order, and how many of them are tests
/// and how many benchmarks. The filter plays no part in a listing.
pub fn list_tests(descs: &Vec<TestDesc>) -> (listing: Listing)
    ensures
        listing.names@.len() == descs@.len(),
        forall|i: int| 0 <= i < descs@.len() ==> (#[trigger] listing.names@[i])@ == descs@[i]@.name,
        listing.num_benches == count_benches(descs@),
        listing.num_tests + listing.num_benches == descs@.len(),
{
    let mut names: Vec<String> = Vec::new();
    let mut num_tests: usize = 0;
    let mut num_benches: usize = 0;
    let mut i: usize = 0;
    while i < descs.len()
        invariant
            i <= descs.len(),
            names@.len() == i,
            forall|k: int| 0 <= k < i ==> (#[trigger] names@[k])@ == descs@[k]@.name,
            num_benches == count_benches(descs@.take(i as int)),
            num_tests + num_benches == i,
        decreases descs.len() - i,
    {
        proof {
            assert(descs@.take(i + 1).drop_last() =~= descs@.take(i as int));
        }
        names.push(descs[i].name().to_owned());
        if descs[i].is_bench() {
            num_benches += 1;
        } else {
            num_tests += 1;
        }
        i += 1;
    }
    proof {
        assert(descs@.take(i as int) =~= descs@);
    }
    Listing { names, num_tests, num_benches }
}

/// The driver of one run.
#[derive(Debug)]
pub struct TestDriver<'a> {
    args: &'a Args,
}

impl<'a> TestDriver<'a> {
    /// The configuration of the run, for contracts.
    pub closed spec fn config(&self) -> RunConfig {
        self.args@
    }

    /// A driver for a run that `args` configures.
    pub fn new(args: &'a Args) -> (driver: Self)
        ensures
            driver.config() == args@,
    {
        TestDriver { args }
    }

    /// Decide on every case, and find the greatest length of the names of
    /// the cases that are not filtered out.
    fn decide_all(&self, descs: &Vec<TestDesc>) -> (out: (Vec<Decision>, usize))
        ensures
            out.0@ == decisions(descs@, self.config()),
            is_name_length(out.1, descs@, self.config()),
    {
        let mut decided: Vec<Decision> = Vec::new();
        let mut name_length: usize = 0;
        let mut i: usize = 0;
        while i < descs.len()
            invariant
                i <= descs.len(),
                decided@.len() == i,
                forall|k: int|
                    0 <= k < i ==> #[trigger] decided@[k] == decision(descs@[k]@, self.config()),
                is_name_length(name_length, descs@.take(i as int), self.config()),
            decreases descs.len() - i,
        {
            let d = decide(&descs[i], self.args);
            let ghost before = descs@.take(i as int);
            let ghost after = descs@.take(i + 1);
            let ghost old_length = name_length;
            if d != Decision::FilteredOut {
                let len = descs[i].name().len();
                if len > name_length {
                    name_length = len;
                }
            }
            proof {
                assert forall|k: int|
                    0 <= k < after.len() && decision((#[trigger] after[k])@, self.config())
                        != Decision::FilteredOut implies byte_len(after[k]@.name) <= name_length by {
                    if k < i {
                        assert(before[k] == after[k]);
                    }
                }
                if name_length != 0 {
                    if name_length == old_length {
                        let w = choose|w: int|
                            0 <= w < before.len() && decision((#[trigger] before[w])@, self.config())
                                != Decision::FilteredOut && byte_len(before[w]@.name) == old_length;
                        assert(after[w] == before[w]);
                    } else {
                        assert(byte_len(after[i as int]@.name) == name_length);
                    }
                }
            }
            decided.push(d);
            i += 1;
        }
        proof {
            assert(descs@.take(i as int) =~= descs@);
        }
        (decided, name_length)
    }

    /// Plan the run, before any case is started.
    ///
    /// Two cases under one name end the run before it starts; a run that
    /// only lists its cases starts none of them; in every other run the
    /// filter decides on each case.
    pub fn plan(&self, descs: &Vec<TestDesc>) -> (plan: Plan)
        ensures
            match plan {
                Plan::Conflict(j) => is_first_conflict(descs@, j as int),
                Plan::List(listing) => {
                    &&& distinct_names(descs@)
                    &&& self.config().list_only
                    &&& listing.names@.len() == descs@.len()
                    &&& forall|i: int|
                        0 <= i < descs@.len() ==> (#[trigger] listing.names@[i])@
                            == descs@[i]@.name
                    &&& listing.num_benches == count_benches(descs@)
                    &&& listing.num_tests + listing.num_benches == descs@.len()
                },
                Plan::Run { decisions: decided, name_length } => {
                    &&& distinct_names(descs@)
                    &&& !self.config().list_only
                    &&& decided@ == decisions(descs@, self.config())
                    &&& is_name_length(name_length, descs@, self.config())
                },
            },
            plan is Conflict <==> !distinct_names(descs@),
    {
        if let Some(j) = first_conflict(descs) {
            return Plan::Conflict(j);
        }
        if self.args.list {
            return Plan::List(list_tests(descs));
        }
        let (decided, name_length) = self.decide_all(descs);
        Plan::Run { decisions: decided, name_length }
    }

    /// Aggregate the report of the run, once every started case has sent
    /// its outcome or has been found to have gone away.
    ///
    /// `signals[i]` is what the body of the case at place `i` sent, `None`
    /// where it sent nothing or where `signals` ends before that place.
    /// Two cases under one name make the run fail without a report, and a
    /// run that only lists its cases succeeds without one.
    pub fn run_tests(&self, descs: &Vec<TestDesc>, signals: &Vec<Option<Outcome>>) -> (result:
        Result<Report, ExitStatus>)
        ensures
            match result {
                Ok(report) => {
                    &&& distinct_names(descs@)
                    &&& !self.config().list_only
                    &&& report.is_report_of(settled(descs@, self.config(), signals@))
                },
                Err(status) => if distinct_names(descs@) {
                    self.config().list_only && status.code() == 0
                } else {
                    status.code() == 101
                },
            },
    {
        match self.plan(descs) {
            Plan::Conflict(_) => Err(ExitStatus::failed()),
            Plan::List(_) => Err(ExitStatus::ok()),
            Plan::Run { decisions: decided, name_length: _ } => {
                let entries = settle_all(descs, &decided, signals, Ghost(self.args@));
                Ok(Report::collect(&entries))
            },
        }
    }
}

/// Run a test suite and report the summary.
///
/// The cases that the arguments rule out are filtered out, the cases that
/// are held back are reported as ignored, and each of the others ends as
/// its channel says: `signals[i]` is what the body of the case at place
/// `i` sent, `None` where it sent nothing.
pub fn run_tests_with_report(
    args: &Args,
    descs: &Vec<TestDesc>,
    signals: &Vec<Option<Outcome>>,
) -> (result: Result<Report, ExitStatus>)
    ensures
        match result {
            Ok(report) => {
                &&& distinct_names(descs@)
                &&& !args@.list_only
                &&& report.is_report_of(settled(descs@, args@, signals@))
            },
            Err(status) => if distinct_names(descs@) {
                args@.list_only && status.code() == 0
            } else {
                status.code() == 101
            },
        },
{
    let driver = TestDriver::new(args);
    driver.run_tests(descs, signals)
}

/// The status of a run: failure for two cases under one name, success for
/// a run that only lists its cases, and else failure exactly when some
/// started case failed or went away without reporting.
pub open spec fn run_status(
    descs: Seq<TestDesc>,
    cfg: RunConfig,
    signals: Seq<Option<Outcome>>,
) -> i32 {
    if !distinct_names(descs) {
        101
    } else if cfg.list_only {
        0
    } else if crate::report::members(settled(descs, cfg, signals), crate::report::Bucket::Failed).len()
        > 0 {
        101
    } else {
        0
    }
}

/// Run a test suite using the outcomes that its cases sent.
///
/// The test suite runs as follows:
///
/// * Test cases that do not satisfy the conditions given in
///   the command line options are filtered out.
/// * Each test case that passed the filter ends as its channel says.
/// * Finally, the results of all test cases are aggregated.
pub fn run_tests(args: &Args, descs: &Vec<TestDesc>, signals: &Vec<Option<Outcome>>) -> (status:
    ExitStatus)
    ensures
        status.code() == run_status(descs@, args@, signals@),
{
    match run_tests_with_report(args, descs, signals) {
        Ok(report) => report.status(),
        Err(status) => status,
    }
}

} // verus!
