//! Test cases, their descriptions, and what a test body reports.

use vstd::prelude::*;

verus! {

/// Whether a case is a test or a benchmark.
#[derive(Copy, Clone, Debug, PartialEq, Eq, Structural)]
pub enum TestKind {
    Test,
    Bench,
}

/// What a description says, as a mathematical value.
pub struct Descriptor {
    pub name: Seq<char>,
    pub is_bench: bool,
    pub ignored: bool,
}

/// Description about a test.
///
/// A description does not change once it is made; the name is what
/// identifies the test within a run.
#[derive(Debug)]
pub struct TestDesc {
    name: String,
    kind: TestKind,
    ignored: bool,
}

impl View for TestDesc {
    type V = Descriptor;

    closed spec fn view(&self) -> Descriptor {
        Descriptor { name: self.name@, is_bench: self.kind == TestKind::Bench, ignored: self.ignored }
    }
}

impl Clone for TestDesc {
    fn clone(&self) -> (copy: Self)
        ensures
            copy == *self,
    {
        TestDesc { name: self.name.clone(), kind: self.kind, ignored: self.ignored }
    }
}

impl TestDesc {
    /// Describe a case by its name, its kind and whether it is marked as
    /// ignored.
    pub fn new(name: &str, kind: TestKind, ignored: bool) -> (desc: Self)
        ensures
            desc@ == (Descriptor { name: name@, is_bench: kind == TestKind::Bench, ignored }),
    {
        TestDesc { name: name.to_owned(), kind, ignored }
    }

    /// The kind of the case.
    pub fn kind(&self) -> (kind: &TestKind)
        ensures
            (*kind == TestKind::Bench) == self@.is_bench,
    {
        &self.kind
    }

    /// Return the name of test.
    #[inline]
    pub fn name(&self) -> (name: &str)
        ensures
            name@ == self@.name,
    {
        self.name.as_str()
    }

    /// Return whether the test is a benchmark or not.
    #[inline]
    pub fn is_bench(&self) -> (yes: bool)
        ensures
            yes == self@.is_bench,
    {
        match self.kind {
            TestKind::Bench => true,
            _ => false,
        }
    }

    /// Return whether the test should be ignored or not.
    #[inline]
    pub fn ignored(&self) -> (yes: bool)
        ensures
            yes == self@.ignored,
    {
        self.ignored
    }

    /// The same description with the ignored mark set to `value`.
    pub(crate) fn with_ignored(self, value: bool) -> (desc: Self)
        ensures
            desc@ == (Descriptor { ignored: value, ..self@ }),
    {
        TestDesc { name: self.name, kind: self.kind, ignored: value }
    }
}

/// No two of the descriptions have the same name.
pub open spec fn distinct_names(descs: Seq<TestDesc>) -> bool {
    forall|i: int, j: int| 0 <= i < j < descs.len() ==> descs[i]@.name != descs[j]@.name
}

/// One of the descriptions has the name `name`.
pub open spec fn has_name(descs: Seq<TestDesc>, name: Seq<char>) -> bool {
    exists|i: int| 0 <= i < descs.len() && (#[trigger] descs[i])@.name == name
}

/// The names of the descriptions.
pub open spec fn name_set(descs: Seq<TestDesc>) -> Set<Seq<char>> {
    Set::new(|name: Seq<char>| has_name(descs, name))
}

/// Data that describes a single test.
pub struct Test<D> {
    desc: TestDesc,
    data: D,
}

impl<D> Test<D> {
    /// The description of the case, for contracts.
    pub closed spec fn spec_desc(&self) -> TestDesc {
        self.desc
    }

    /// The data that goes with the case, for contracts.
    pub closed spec fn spec_data(&self) -> D {
        self.data
    }

    /// Create a single test.
    pub fn test(name: &str, data: D) -> (case: Self)
        ensures
            case.spec_desc()@ == (Descriptor { name: name@, is_bench: false, ignored: false }),
            case.spec_data() == data,
    {
        Self::new(name, TestKind::Test, data)
    }

    /// Create a single benchmark test.
    pub fn bench(name: &str, data: D) -> (case: Self)
        ensures
            case.spec_desc()@ == (Descriptor { name: name@, is_bench: true, ignored: false }),
            case.spec_data() == data,
    {
        Self::new(name, TestKind::Bench, data)
    }

    fn new(name: &str, kind: TestKind, data: D) -> (case: Self)
        ensures
            case.spec_desc()@ == (Descriptor {
                name: name@,
                is_bench: kind == TestKind::Bench,
                ignored: false,
            }),
            case.spec_data() == data,
    {
        Test { desc: TestDesc::new(name, kind, false), data }
    }

    /// Mark that this test should be ignored.
    pub fn ignore(self, value: bool) -> (case: Self)
        ensures
            case.spec_desc()@ == (Descriptor { ignored: value, ..self.spec_desc()@ }),
            case.spec_data() == self.spec_data(),
    {
        Test { desc: self.desc.with_ignored(value), data: self.data }
    }

    /// The description of the case.
    pub fn desc(&self) -> (desc: &TestDesc)
        ensures
            *desc == self.spec_desc(),
    {
        &self.desc
    }

    /// Take the case apart into its description and its data.
    pub fn deconstruct(self) -> (parts: (TestDesc, D))
        ensures
            parts.0 == self.spec_desc(),
            parts.1 == self.spec_data(),
    {
        (self.desc, self.data)
    }
}

/// How a test body ended.
#[derive(Debug, Copy, Clone, PartialEq, Eq, Structural)]
pub enum OutcomeKind {
    Passed,
    Failed,
    Measured { average: u64, variance: u64 },
}

/// The outcome of performing a test.
#[derive(Debug)]
pub struct Outcome {
    kind: OutcomeKind,
    err_msg: Option<String>,
}

impl Clone for Outcome {
    fn clone(&self) -> (copy: Self)
        ensures
            copy == *self,
    {
        Outcome {
            kind: self.kind,
            err_msg: match &self.err_msg {
                Some(msg) => Some(msg.clone()),
                None => None,
            },
        }
    }
}

impl Outcome {
    /// How the body ended, for contracts.
    pub closed spec fn spec_kind(&self) -> OutcomeKind {
        self.kind
    }

    /// The error message that the outcome carries, for contracts.
    pub closed spec fn spec_err_msg(&self) -> Option<String> {
        self.err_msg
    }

    /// An outcome of the given kind, without an error message.
    #[inline]
    pub fn new(kind: OutcomeKind) -> (outcome: Self)
        ensures
            outcome.spec_kind() == kind,
            outcome.spec_err_msg() is None,
    {
        Outcome { kind, err_msg: None }
    }

    /// Create an `Outcome` representing that the test passed.
    #[inline]
    pub fn passed() -> (outcome: Self)
        ensures
            outcome.spec_kind() == OutcomeKind::Passed,
            outcome.spec_err_msg() is None,
    {
        Self::new(OutcomeKind::Passed)
    }

    /// Create an `Outcome` representing that the test or benchmark failed.
    pub fn failed() -> (outcome: Self)
        ensures
            outcome.spec_kind() == OutcomeKind::Failed,
            outcome.spec_err_msg() is None,
    {
        Self::new(OutcomeKind::Failed)
    }

    /// Create an `Outcome` representing that the benchmark test was successfully run.
    pub fn measured(average: u64, variance: u64) -> (outcome: Self)
        ensures
            outcome.spec_kind() == (OutcomeKind::Measured { average, variance }),
            outcome.spec_err_msg() is None,
    {
        Self::new(OutcomeKind::Measured { average, variance })
    }

    /// Specify the error message.
    pub fn error_message(self, err_msg: &str) -> (outcome: Self)
        ensures
            outcome.spec_kind() == self.spec_kind(),
            outcome.spec_err_msg() matches Some(msg) && msg@ == err_msg@,
    {
        Outcome { kind: self.kind, err_msg: Some(err_msg.to_owned()) }
    }

    /// Specify the error message, taking the string as it is.
    pub fn with_message(self, err_msg: String) -> (outcome: Self)
        ensures
            outcome.spec_kind() == self.spec_kind(),
            outcome.spec_err_msg() == Some(err_msg),
    {
        Outcome { kind: self.kind, err_msg: Some(err_msg) }
    }

    /// How the body ended.
    pub fn kind(&self) -> (kind: &OutcomeKind)
        ensures
            *kind == self.spec_kind(),
    {
        &self.kind
    }

    /// The error message that the outcome carries, if any.
    pub fn err_msg(&self) -> (msg: Option<String>)
        ensures
            msg == self.spec_err_msg(),
    {
        match &self.err_msg {
            Some(msg) => Some(msg.clone()),
            None => None,
        }
    }

    /// Take the outcome apart into its kind and its error message.
    pub fn deconstruct(self) -> (parts: (OutcomeKind, Option<String>))
        ensures
            parts.0 == self.spec_kind(),
            parts.1 == self.spec_err_msg(),
    {
        (self.kind, self.err_msg)
    }
}

} // verus!
