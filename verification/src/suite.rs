//! The registry of a run: the cases in the order in which they were
//! registered, no two under one name, each with what the run does with it.

use vstd::hash_set::StringHashSet;
use vstd::prelude::*;
use crate::args::{Args, RunConfig};
use crate::filter::{decide, decision, mode_mismatch, name_filtered, Decision};
use crate::report::{settle_one, settled, signal_at, Entry, Report};
use crate::session::Session;
use crate::test::{
    distinct_names, has_name, name_set, Descriptor, Outcome, OutcomeKind, TestDesc, TestKind,
};

verus! {

/// The result of a benchmark.
#[derive(Debug)]
pub struct Measurement {
    pub average: u64,
    pub variance: u64,
}

/// Why a registration was refused: a case stands under the name already.
#[derive(Debug)]
pub struct DuplicateName {
    /// The name that was to be registered a second time.
    pub name: String,
}

/// The handle to a test case that the run starts.
#[derive(Debug)]
pub struct Test {
    slot: usize,
}

/// The handle to a benchmark that the run starts.
#[derive(Debug)]
pub struct Benchmark {
    slot: usize,
}

/// What a test body reports by returning `result`.
pub open spec fn test_outcome(result: Result<(), Option<String>>, outcome: Outcome) -> bool {
    match result {
        Ok(()) => outcome.spec_kind() == OutcomeKind::Passed && outcome.spec_err_msg() is None,
        Err(msg) => outcome.spec_kind() == OutcomeKind::Failed && outcome.spec_err_msg() == msg,
    }
}

/// What a benchmark body reports by returning `result`.
pub open spec fn benchmark_outcome(
    result: Result<Measurement, Option<String>>,
    outcome: Outcome,
) -> bool {
    match result {
        Ok(m) => outcome.spec_kind() == (OutcomeKind::Measured {
            average: m.average,
            variance: m.variance,
        }) && outcome.spec_err_msg() is None,
        Err(msg) => outcome.spec_kind() == OutcomeKind::Failed && outcome.spec_err_msg() == msg,
    }
}

/// An outcome of the kind `Failed` that carries `msg`.
fn failure(msg: Option<String>) -> (outcome: Outcome)
    ensures
        outcome.spec_kind() == OutcomeKind::Failed,
        outcome.spec_err_msg() == msg,
{
    match msg {
        Some(text) => Outcome::failed().with_message(text),
        None => Outcome::failed(),
    }
}

impl Test {
    /// The place of the case in the registry, for contracts.
    pub closed spec fn spec_slot(&self) -> usize {
        self.slot
    }

    /// The place of the case in the registry: the number of cases that
    /// were registered before it.
    #[verifier::when_used_as_spec(spec_slot)]
    pub fn slot(&self) -> (slot: usize)
        ensures
            slot == self.spec_slot(),
    {
        self.slot
    }

    /// Turn what the body of the test returned into the outcome to send:
    /// passed for `Ok`, failed with the message for `Err`.
    pub fn run(self, result: Result<(), Option<String>>) -> (outcome: Outcome)
        ensures
            test_outcome(result, outcome),
    {
        match result {
            Ok(()) => Outcome::passed(),
            Err(msg) => failure(msg),
        }
    }
}

impl Benchmark {
    /// The place of the case in the registry, for contracts.
    pub closed spec fn spec_slot(&self) -> usize {
        self.slot
    }

    /// The place of the case in the registry: the number of cases that
    /// were registered before it.
    #[verifier::when_used_as_spec(spec_slot)]
    pub fn slot(&self) -> (slot: usize)
        ensures
            slot == self.spec_slot(),
    {
        self.slot
    }

    /// Turn what the body of the benchmark returned into the outcome to
    /// send: measured for `Ok`, failed with the message for `Err`.
    pub fn run(self, result: Result<Measurement, Option<String>>) -> (outcome: Outcome)
        ensures
            benchmark_outcome(result, outcome),
    {
        match result {
            Ok(measurement) => Outcome::measured(measurement.average, measurement.variance),
            Err(msg) => failure(msg),
        }
    }
}

/// A type that represents a test suite.
pub struct TestSuite {
    args: Args,
    descs: Vec<TestDesc>,
    decisions: Vec<Decision>,
    names: StringHashSet,
}

impl TestSuite {
    /// The arguments that configure the run, for contracts.
    pub closed spec fn spec_args(&self) -> Args {
        self.args
    }

    /// The configuration of the run.
    pub open spec fn config(&self) -> RunConfig {
        self.spec_args()@
    }

    /// The registered cases, in the order of registration.
    pub closed spec fn descs(&self) -> Seq<TestDesc> {
        self.descs@
    }

    /// The registry is in order: no name is registered twice, and with
    /// each case stands what the filter decides on it.
    pub closed spec fn wf(&self) -> bool {
        &&& distinct_names(self.descs@)
        &&& self.names@ == name_set(self.descs@)
        &&& self.decisions@.len() == self.descs@.len()
        &&& forall|i: int|
            0 <= i < self.descs@.len() ==> #[trigger] self.decisions@[i] == decision(
                self.descs@[i]@,
                self.args@,
            )
    }

    /// No name is registered twice.
    pub proof fn lemma_names_distinct(&self)
        requires
            self.wf(),
        ensures
            distinct_names(self.descs()),
    {
    }

    /// Create a test suite without cases for a run that `args` configures.
    pub fn new(args: Args) -> (suite: Self)
        ensures
            suite.wf(),
            suite.spec_args() == args,
            suite.descs().len() == 0,
    {
        let suite = TestSuite {
            args,
            descs: Vec::new(),
            decisions: Vec::new(),
            names: StringHashSet::new(),
        };
        assert(suite.names@ =~= name_set(suite.descs@));
        suite
    }

    /// The arguments that configure the run.
    pub fn args(&self) -> (args: &Args)
        ensures
            *args == self.spec_args(),
    {
        &self.args
    }

    /// The number of registered cases.
    pub fn len(&self) -> (n: usize)
        ensures
            n == self.descs().len(),
    {
        self.descs.len()
    }

    /// Whether the mode of the run, the name filter or a skip pattern
    /// rules out a case of this name and kind.
    pub fn is_filtered(&self, name: &str, is_benchmark: bool) -> (yes: bool)
        ensures
            yes == (mode_mismatch(is_benchmark, self.config()) || name_filtered(
                name@,
                self.config(),
            )),
    {
        let mismatch = if is_benchmark {
            !self.args.run_benchmarks
        } else {
            !self.args.run_tests
        };
        if mismatch {
            return true;
        }
        self.args.is_filtered(name)
    }

    /// Whether a case is registered under `name`.
    pub fn contains(&self, name: &str) -> (yes: bool)
        requires
            self.wf(),
        ensures
            yes == has_name(self.descs(), name@),
    {
        self.names.contains(name)
    }

    /// The description of the case at place `slot`.
    pub fn desc(&self, slot: usize) -> (desc: &TestDesc)
        requires
            slot < self.descs().len(),
        ensures
            *desc == self.descs()[slot as int],
    {
        &self.descs[slot]
    }

    /// What the run does with the case at place `slot`.
    pub fn decision(&self, slot: usize) -> (d: Decision)
        requires
            self.wf(),
            slot < self.descs().len(),
        ensures
            d == decision(self.descs()[slot as int]@, self.config()),
    {
        self.decisions[slot]
    }

    /// Enter a case into the registry and decide what the run does with it.
    fn register(&mut self, name: &str, kind: TestKind, ignored: bool) -> (d: Decision)
        requires
            old(self).wf(),
            !has_name(old(self).descs(), name@),
        ensures
            final(self).wf(),
            final(self).spec_args() == old(self).spec_args(),
            final(self).descs().len() == old(self).descs().len() + 1,
            final(self).descs().drop_last() == old(self).descs(),
            final(self).descs().last()@ == (Descriptor {
                name: name@,
                is_bench: kind == TestKind::Bench,
                ignored,
            }),
            d == decision(final(self).descs().last()@, old(self).config()),
    {
        let desc = TestDesc::new(name, kind, ignored);
        let d = decide(&desc, &self.args);
        self.descs.push(desc);
        self.decisions.push(d);
        self.names.insert(name.to_owned());
        proof {
            let before = old(self).descs@;
            let after = self.descs@;
            assert forall|n: Seq<char>| has_name(after, n) <==> (has_name(before, n) || n
                == name@) by {
                if has_name(before, n) {
                    let i = choose|i: int| 0 <= i < before.len() && (#[trigger] before[i])@.name == n;
                    assert(after[i]@.name == n);
                }
                if n == name@ {
                    assert(after[after.len() - 1]@.name == n);
                }
                if has_name(after, n) {
                    let i = choose|i: int| 0 <= i < after.len() && (#[trigger] after[i])@.name == n;
                    if i < before.len() {
                        assert(before[i]@.name == n);
                    }
                }
            }
            assert(self.names@ =~= name_set(after));
        }
        d
    }

    /// Register a single test to the runner.
    ///
    /// This method will return a handle if the specified test case needs
    /// to be driven: that is, if the run starts it. A case that the filter
    /// rules out or that is held back is registered all the same, and no
    /// handle is returned for it. A name can be registered once.
    pub fn add_test(&mut self, name: &str, ignored: bool) -> (handle: Option<Test>)
        requires
            old(self).wf(),
            !has_name(old(self).descs(), name@),
        ensures
            final(self).wf(),
            final(self).spec_args() == old(self).spec_args(),
            final(self).descs().len() == old(self).descs().len() + 1,
            final(self).descs().drop_last() == old(self).descs(),
            final(self).descs().last()@ == (Descriptor { name: name@, is_bench: false, ignored }),
            handle is Some <==> decision(final(self).descs().last()@, old(self).config())
                == Decision::WillRun,
            handle matches Some(test) ==> test.slot() == old(self).descs().len(),
    {
        let slot = self.descs.len();
        match self.register(name, TestKind::Test, ignored) {
            Decision::WillRun => Some(Test { slot }),
            _ => None,
        }
    }

    /// Register a single benchmark to the runner.
    ///
    /// This method will return a handle if the specified benchmark needs
    /// to be driven: that is, if the run starts it. A benchmark that the
    /// filter rules out or that is held back is registered all the same,
    /// and no handle is returned for it. A name can be registered once.
    pub fn add_benchmark(&mut self, name: &str, ignored: bool) -> (handle: Option<Benchmark>)
        requires
            old(self).wf(),
            !has_name(old(self).descs(), name@),
        ensures
            final(self).wf(),
            final(self).spec_args() == old(self).spec_args(),
            final(self).descs().len() == old(self).descs().len() + 1,
            final(self).descs().drop_last() == old(self).descs(),
            final(self).descs().last()@ == (Descriptor { name: name@, is_bench: true, ignored }),
            handle is Some <==> decision(final(self).descs().last()@, old(self).config())
                == Decision::WillRun,
            handle matches Some(bench) ==> bench.slot() == old(self).descs().len(),
    {
        let slot = self.descs.len();
        match self.register(name, TestKind::Bench, ignored) {
            Decision::WillRun => Some(Benchmark { slot }),
            _ => None,
        }
    }

    /// Register a single test, unless its name is taken.
    ///
    /// A name can be registered once. Where a case stands under `name`
    /// already, the registration is refused before anything is entered or
    /// started: the registry stays as it is and no handle is returned.
    /// Otherwise this is `add_test`.
    pub fn try_add_test(&mut self, name: &str, ignored: bool) -> (result: Result<
        Option<Test>,
        DuplicateName,
    >)
        requires
            old(self).wf(),
        ensures
            final(self).wf(),
            final(self).spec_args() == old(self).spec_args(),
            match result {
                Err(refused) => {
                    &&& has_name(old(self).descs(), name@)
                    &&& refused.name@ == name@
                    &&& final(self).descs() == old(self).descs()
                },
                Ok(handle) => {
                    &&& !has_name(old(self).descs(), name@)
                    &&& final(self).descs().len() == old(self).descs().len() + 1
                    &&& final(self).descs().drop_last() == old(self).descs()
                    &&& final(self).descs().last()@ == (Descriptor {
                        name: name@,
                        is_bench: false,
                        ignored,
                    })
                    &&& handle is Some <==> decision(
                        final(self).descs().last()@,
                        old(self).config(),
                    ) == Decision::WillRun
                    &&& handle matches Some(test) ==> test.slot() == old(self).descs().len()
                },
            },
    {
        if self.contains(name) {
            return Err(DuplicateName { name: name.to_owned() });
        }
        Ok(self.add_test(name, ignored))
    }

    /// Register a single benchmark, unless its name is taken.
    ///
    /// A name can be registered once. Where a case stands under `name`
    /// already, the registration is refused before anything is entered or
    /// started: the registry stays as it is and no handle is returned.
    /// Otherwise this is `add_benchmark`.
    pub fn try_add_benchmark(&mut self, name: &str, ignored: bool) -> (result: Result<
        Option<Benchmark>,
        DuplicateName,
    >)
        requires
            old(self).wf(),
        ensures
            final(self).wf(),
            final(self).spec_args() == old(self).spec_args(),
            match result {
                Err(refused) => {
                    &&& has_name(old(self).descs(), name@)
                    &&& refused.name@ == name@
                    &&& final(self).descs() == old(self).descs()
                },
                Ok(handle) => {
                    &&& !has_name(old(self).descs(), name@)
                    &&& final(self).descs().len() == old(self).descs().len() + 1
                    &&& final(self).descs().drop_last() == old(self).descs()
                    &&& final(self).descs().last()@ == (Descriptor {
                        name: name@,
                        is_bench: true,
                        ignored,
                    })
                    &&& handle is Some <==> decision(
                        final(self).descs().last()@,
                        old(self).config(),
                    ) == Decision::WillRun
                    &&& handle matches Some(bench) ==> bench.slot() == old(self).descs().len()
                },
            },
    {
        if self.contains(name) {
            return Err(DuplicateName { name: name.to_owned() });
        }
        Ok(self.add_benchmark(name, ignored))
    }

    /// Start the run: the registry is closed, and the run waits for the
    /// channel of every case that it starts.
    pub fn start(self) -> (session: Session)
        requires
            self.wf(),
        ensures
            session.wf(),
            session.spec_args() == self.spec_args(),
            session.descs() == self.descs(),
            session.signals() == Seq::new(self.descs().len(), |i: int| None::<Outcome>),
            session.resolved() == Seq::new(self.descs().len(), |i: int| false),
    {
        Session::begin(self.args, self.descs, self.decisions)
    }

    /// The registered cases with the states they end in, given what came
    /// over the channels: `signals[i]` is what the body of the case at
    /// place `i` sent, `None` where it sent nothing or where `signals`
    /// ends before that place.
    pub fn settle(&self, signals: &Vec<Option<Outcome>>) -> (entries: Vec<Entry>)
        requires
            self.wf(),
        ensures
            entries@ == settled(self.descs(), self.config(), signals@),
    {
        settle_all(&self.descs, &self.decisions, signals, Ghost(self.args@))
    }

    /// Aggregate the results of the run into its report, once every
    /// channel has brought its outcome or has been found closed.
    ///
    /// `signals[i]` is what the body of the case at place `i` sent, `None`
    /// where it sent nothing or where `signals` ends before that place.
    pub fn run_tests(&self, signals: &Vec<Option<Outcome>>) -> (report: Report)
        requires
            self.wf(),
        ensures
            report.is_report_of(settled(self.descs(), self.config(), signals@)),
    {
        let entries = self.settle(signals);
        Report::collect(&entries)
    }
}

/// Settle every case, given the decisions on them and what came over the
/// channels.
pub(crate) fn settle_all(
    descs: &Vec<TestDesc>,
    decisions: &Vec<Decision>,
    signals: &Vec<Option<Outcome>>,
    Ghost(cfg): Ghost<RunConfig>,
) -> (entries: Vec<Entry>)
    requires
        decisions@.len() == descs@.len(),
        forall|i: int| 0 <= i < descs@.len() ==> #[trigger] decisions@[i] == decision(descs@[i]@, cfg),
    ensures
        entries@ == settled(descs@, cfg, signals@),
{
    let mut entries: Vec<Entry> = Vec::new();
    let mut i: usize = 0;
    while i < descs.len()
        invariant
            i <= descs.len(),
            decisions@.len() == descs@.len(),
            forall|j: int|
                0 <= j < descs@.len() ==> #[trigger] decisions@[j] == decision(descs@[j]@, cfg),
            entries@.len() == i,
            forall|j: int| 0 <= j < i ==> #[trigger] entries@[j] == settled(descs@, cfg, signals@)[j],
        decreases descs.len() - i,
    {
        let signal = if i < signals.len() {
            match &signals[i] {
                Some(outcome) => Some(outcome.clone()),
                None => None,
            }
        } else {
            None
        };
        let state = settle_one(decisions[i], signal);
        entries.push((descs[i].clone(), state));
        i += 1;
    }
    entries
}

} // verus!
