//! The report of a run: every registered case in exactly one of five
//! buckets, each bucket in the order of registration.

use vstd::prelude::*;
use vstd::string::{StrSliceExecFns, StringExecFns};
use crate::args::RunConfig;
use crate::event::{received, Outcome};
use crate::filter::{decision, Decision};
use crate::test::{distinct_names, TestDesc};
use crate::text::{decimal, push_u64};
use crate::ExitStatus;

verus! {

/// The state in which a registered case ends.
#[derive(Debug)]
pub enum Settled {
    /// The filter ruled the case out.
    FilteredOut,
    /// The case was let through, and was skipped or ran.
    Outcome(Outcome),
}

/// The five buckets of a report.
#[derive(Copy, Clone, Debug, PartialEq, Eq, Structural)]
pub enum Bucket {
    Passed,
    Failed,
    Measured,
    Ignored,
    FilteredOut,
}

/// A registered case with the state it ended in.
pub type Entry = (TestDesc, Settled);

/// The bucket that a case ending in `state` belongs to. A case whose
/// signal was lost counts as failed.
pub open spec fn bucket_of(state: Settled) -> Bucket {
    match state {
        Settled::FilteredOut => Bucket::FilteredOut,
        Settled::Outcome(Outcome::Passed) => Bucket::Passed,
        Settled::Outcome(Outcome::Failed { .. }) => Bucket::Failed,
        Settled::Outcome(Outcome::Canceled) => Bucket::Failed,
        Settled::Outcome(Outcome::Measured { .. }) => Bucket::Measured,
        Settled::Outcome(Outcome::Ignored) => Bucket::Ignored,
    }
}

/// The test for membership in `bucket`.
pub open spec fn in_bucket(bucket: Bucket) -> spec_fn(Entry) -> bool {
    |entry: Entry| bucket_of(entry.1) == bucket
}

/// The entries that belong to `bucket`, in their order in `entries`.
pub open spec fn members(entries: Seq<Entry>, bucket: Bucket) -> Seq<Entry> {
    entries.filter(in_bucket(bucket))
}

/// The description of an entry.
pub open spec fn desc_of(entry: Entry) -> TestDesc {
    entry.0
}

/// A failed entry as the report lists it: with the message it failed
/// with, if it gave one. A lost signal has no message.
pub open spec fn failure_of(entry: Entry) -> (TestDesc, Option<String>) {
    (
        entry.0,
        match entry.1 {
            Settled::Outcome(Outcome::Failed { msg }) => msg,
            _ => None,
        },
    )
}

/// A measured entry as the report lists it: with average and variance.
pub open spec fn measurement_of(entry: Entry) -> (TestDesc, (u64, u64)) {
    (
        entry.0,
        match entry.1 {
            Settled::Outcome(Outcome::Measured { average, variance }) => (average, variance),
            _ => (0, 0),
        },
    )
}

/// What came over the channel of the case at place `i`: nothing, where
/// `signals` does not reach that far.
pub open spec fn signal_at(signals: Seq<Option<crate::test::Outcome>>, i: int) -> Option<
    crate::test::Outcome,
> {
    if 0 <= i < signals.len() {
        signals[i]
    } else {
        None
    }
}

/// The state in which a case ends, given what the run decided to do with
/// it and what came over its channel. Only a case that was started has a
/// channel: for the others `signal` plays no part.
pub open spec fn settle(decision: Decision, signal: Option<crate::test::Outcome>) -> Settled {
    match decision {
        Decision::FilteredOut => Settled::FilteredOut,
        Decision::WillSkip => Settled::Outcome(Outcome::Ignored),
        Decision::WillRun => Settled::Outcome(received(signal)),
    }
}

/// The registered cases with the states they end in, in a run configured
/// by `cfg` in which `signals` came over the channels.
pub open spec fn settled(
    descs: Seq<TestDesc>,
    cfg: RunConfig,
    signals: Seq<Option<crate::test::Outcome>>,
) -> Seq<Entry> {
    Seq::new(
        descs.len(),
        |i: int| (descs[i], settle(decision(descs[i]@, cfg), signal_at(signals, i))),
    )
}

/// The text ends with an end of line.
pub open spec fn ends_with_newline(text: Seq<char>) -> bool {
    text.len() > 0 && text.last() == '\n'
}

/// What the report tells of one failure: a heading with the name, and
/// under it the message, if there is one, closed by an end of line.
pub open spec fn failure_text(failure: (TestDesc, Option<String>)) -> Seq<char> {
    "---- "@ + failure.0@.name + " ----\n"@ + (match failure.1 {
        Some(msg) => if ends_with_newline(msg@) {
            msg@
        } else {
            msg@ + "\n"@
        },
        None => Seq::<char>::empty(),
    })
}

/// What the report tells of the failures, one after the other.
pub open spec fn failures_text(failed: Seq<(TestDesc, Option<String>)>) -> Seq<char>
    decreases failed.len(),
{
    if failed.len() == 0 {
        Seq::<char>::empty()
    } else {
        failures_text(failed.drop_last()) + failure_text(failed.last())
    }
}

/// The names of the failed cases, one in a line.
pub open spec fn failed_names_text(failed: Seq<(TestDesc, Option<String>)>) -> Seq<char>
    decreases failed.len(),
{
    if failed.len() == 0 {
        Seq::<char>::empty()
    } else {
        failed_names_text(failed.drop_last()) + "    "@ + failed.last().0@.name + "\n"@
    }
}

/// The line that sums the run up: the status word and how many cases
/// each bucket holds.
pub open spec fn result_text(
    status: Seq<char>,
    passed: nat,
    failed: nat,
    ignored: nat,
    measured: nat,
    filtered_out: nat,
) -> Seq<char> {
    "test result: "@ + status + ". "@ + decimal(passed) + " passed; "@ + decimal(failed)
        + " failed; "@ + decimal(ignored) + " ignored; "@ + decimal(measured) + " measured; "@
        + decimal(filtered_out) + " filtered out\n"@
}

/// A report on test suite execution.
#[derive(Debug)]
#[non_exhaustive]
pub struct Report {
    /// Passed test cases.
    pub passed: Vec<TestDesc>,
    /// Failed test cases with the error messages.
    pub failed: Vec<(TestDesc, Option<String>)>,
    /// Benchmark results.
    pub measured: Vec<(TestDesc, (u64, u64))>,
    /// Test cases skipped because they do not satisfy the execution conditions.
    pub ignored: Vec<TestDesc>,
    /// Test cases filtered out.
    pub filtered_out: Vec<TestDesc>,
}

/// Appending an entry to a sequence appends it to the members of its own
/// bucket and leaves the members of the other buckets as they are.
pub proof fn lemma_members_push(entries: Seq<Entry>, entry: Entry, bucket: Bucket)
    ensures
        members(entries.push(entry), bucket) == (if bucket_of(entry.1) == bucket {
            members(entries, bucket).push(entry)
        } else {
            members(entries, bucket)
        }),
{
    reveal(Seq::filter);
    assert(entries.push(entry).drop_last() =~= entries);
}

/// Every member of a bucket is one of the entries, and one that belongs
/// to the bucket. The result is the place of the member among the
/// entries.
pub proof fn lemma_members_are_entries(entries: Seq<Entry>, bucket: Bucket, k: int) -> (i: int)
    requires
        0 <= k < members(entries, bucket).len(),
    ensures
        0 <= i < entries.len(),
        entries[i] == members(entries, bucket)[k],
        bucket_of(entries[i].1) == bucket,
    decreases entries.len(),
{
    if entries.len() == 0 {
        reveal(Seq::filter);
        0
    } else {
        let init = entries.drop_last();
        let last = entries.last();
        assert(init.push(last) =~= entries);
        lemma_members_push(init, last, bucket);
        if bucket_of(last.1) == bucket && k == members(init, bucket).len() {
            entries.len() - 1
        } else {
            lemma_members_are_entries(init, bucket, k)
        }
    }
}

/// The members of a bucket stand in the order of the entries: of two
/// members, the one that comes first in the bucket comes first among the
/// entries. The result is the places of the two among the entries.
pub proof fn lemma_members_keep_order(entries: Seq<Entry>, bucket: Bucket, k1: int, k2: int) -> (at: (
    int,
    int,
))
    requires
        0 <= k1 < k2 < members(entries, bucket).len(),
    ensures
        0 <= at.0 < at.1 < entries.len(),
        entries[at.0] == members(entries, bucket)[k1],
        entries[at.1] == members(entries, bucket)[k2],
    decreases entries.len(),
{
    if entries.len() == 0 {
        reveal(Seq::filter);
        (0, 0)
    } else {
        let init = entries.drop_last();
        let last = entries.last();
        assert(init.push(last) =~= entries);
        lemma_members_push(init, last, bucket);
        if bucket_of(last.1) == bucket && k2 == members(init, bucket).len() {
            let i1 = lemma_members_are_entries(init, bucket, k1);
            (i1, entries.len() - 1)
        } else {
            lemma_members_keep_order(init, bucket, k1, k2)
        }
    }
}

/// The buckets are exhaustive: each entry is a member of the bucket it
/// belongs to.
pub proof fn lemma_entry_is_member(entries: Seq<Entry>, i: int) -> (k: int)
    requires
        0 <= i < entries.len(),
    ensures
        0 <= k < members(entries, bucket_of(entries[i].1)).len(),
        members(entries, bucket_of(entries[i].1))[k] == entries[i],
{
    let bucket = bucket_of(entries[i].1);
    entries.lemma_filter_contains(in_bucket(bucket), i);
    let members = members(entries, bucket);
    choose|k: int| 0 <= k < members.len() && members[k] == entries[i]
}

/// The five buckets together hold as many members as there are entries.
pub proof fn lemma_members_count(entries: Seq<Entry>)
    ensures
        members(entries, Bucket::Passed).len() + members(entries, Bucket::Failed).len() + members(
            entries,
            Bucket::Measured,
        ).len() + members(entries, Bucket::Ignored).len() + members(
            entries,
            Bucket::FilteredOut,
        ).len() == entries.len(),
    decreases entries.len(),
{
    if entries.len() == 0 {
        reveal(Seq::filter);
    } else {
        let init = entries.drop_last();
        let last = entries.last();
        assert(init.push(last) =~= entries);
        lemma_members_count(init);
        lemma_members_push(init, last, Bucket::Passed);
        lemma_members_push(init, last, Bucket::Failed);
        lemma_members_push(init, last, Bucket::Measured);
        lemma_members_push(init, last, Bucket::Ignored);
        lemma_members_push(init, last, Bucket::FilteredOut);
    }
}

/// The descriptions of the entries, in order.
pub open spec fn descs_of(entries: Seq<Entry>) -> Seq<TestDesc> {
    entries.map_values(|e: Entry| desc_of(e))
}

/// Every registered case is in exactly one bucket. Where no two entries
/// have the same name, a report on them lists the name of each entry in
/// the bucket that the entry belongs to and in no other, and there only
/// once. So the buckets are disjoint and exhaustive.
pub proof fn lemma_one_bucket_each(report: Report, entries: Seq<Entry>, i: int, bucket: Bucket)
    requires
        report.is_report_of(entries),
        distinct_names(descs_of(entries)),
        0 <= i < entries.len(),
    ensures
        report.names(bucket).contains(entries[i].0@.name) <==> bucket == bucket_of(entries[i].1),
        report.names(bucket).no_duplicates(),
{
    let name = entries[i].0@.name;
    let names = report.names(bucket);
    let members = members(entries, bucket);
    assert forall|k: int| 0 <= k < names.len() implies names[k] == (#[trigger] members[k]).0@.name by {}
    if bucket == bucket_of(entries[i].1) {
        let k = lemma_entry_is_member(entries, i);
        assert(names[k] == name);
    }
    if names.contains(name) {
        let k = choose|k: int| 0 <= k < names.len() && names[k] == name;
        let j = lemma_members_are_entries(entries, bucket, k);
        assert(descs_of(entries)[j]@.name == descs_of(entries)[i]@.name);
        assert(j == i);
    }
    assert forall|k1: int, k2: int| 0 <= k1 < names.len() && 0 <= k2 < names.len() && k1 != k2 implies names[k1] != names[k2] by {
        let (lo, hi) = if k1 < k2 {
            (k1, k2)
        } else {
            (k2, k1)
        };
        let at = lemma_members_keep_order(entries, bucket, lo, hi);
        assert(descs_of(entries)[at.0]@.name != descs_of(entries)[at.1]@.name);
    }
}

/// The report is a function of the cases and of the states they ended in:
/// two reports on the same entries list the same in every bucket, in
/// whatever order the outcomes came in while the run was under way.
pub proof fn lemma_report_determined(first: Report, second: Report, entries: Seq<Entry>)
    requires
        first.is_report_of(entries),
        second.is_report_of(entries),
    ensures
        first.passed@ == second.passed@,
        first.failed@ == second.failed@,
        first.measured@ == second.measured@,
        first.ignored@ == second.ignored@,
        first.filtered_out@ == second.filtered_out@,
{
}

/// A report lists as many cases as were registered.
pub proof fn lemma_report_counts(report: Report, entries: Seq<Entry>)
    requires
        report.is_report_of(entries),
    ensures
        report.passed@.len() + report.failed@.len() + report.measured@.len() + report.ignored@.len()
            + report.filtered_out@.len() == entries.len(),
{
    lemma_members_count(entries);
}

/// Where each state comes from: only a case that the filter ruled out
/// ends as filtered out, only a case that was held back ends as ignored,
/// and only a case that was started ends as passed, failed or measured.
pub proof fn lemma_bucket_origin(decision: Decision, signal: Option<crate::test::Outcome>)
    ensures
        bucket_of(settle(decision, signal)) == Bucket::FilteredOut <==> decision
            == Decision::FilteredOut,
        bucket_of(settle(decision, signal)) == Bucket::Ignored <==> decision == Decision::WillSkip,
        (bucket_of(settle(decision, signal)) == Bucket::Passed || bucket_of(
            settle(decision, signal),
        ) == Bucket::Failed || bucket_of(settle(decision, signal)) == Bucket::Measured) <==> decision
            == Decision::WillRun,
{
}

/// The entries of a run describe the registered cases, in their order.
pub proof fn lemma_settled_descs(
    descs: Seq<TestDesc>,
    cfg: RunConfig,
    signals: Seq<Option<crate::test::Outcome>>,
)
    ensures
        descs_of(settled(descs, cfg, signals)) == descs,
{
}

/// Every registered case ends in exactly one bucket. In a run over cases
/// of which no two have the same name, the report lists the name of each
/// case in the bucket that the decision on the case and what came over
/// its channel put it in, and in no other bucket.
pub proof fn lemma_run_partitions(
    report: Report,
    descs: Seq<TestDesc>,
    cfg: RunConfig,
    signals: Seq<Option<crate::test::Outcome>>,
    i: int,
    bucket: Bucket,
)
    requires
        report.is_report_of(settled(descs, cfg, signals)),
        distinct_names(descs),
        0 <= i < descs.len(),
    ensures
        report.names(bucket).contains(descs[i]@.name) <==> bucket == bucket_of(
            settle(decision(descs[i]@, cfg), signal_at(signals, i)),
        ),
        report.names(bucket).no_duplicates(),
        report.passed@.len() + report.failed@.len() + report.measured@.len() + report.ignored@.len()
            + report.filtered_out@.len() == descs.len(),
{
    let entries = settled(descs, cfg, signals);
    lemma_settled_descs(descs, cfg, signals);
    lemma_one_bucket_each(report, entries, i, bucket);
    lemma_report_counts(report, entries);
}

/// A started case whose channel brought nothing still ends: it is
/// reported as failed, without a message, and the run fails with it.
pub proof fn lemma_lost_signal_fails(
    report: Report,
    descs: Seq<TestDesc>,
    cfg: RunConfig,
    signals: Seq<Option<crate::test::Outcome>>,
    i: int,
)
    requires
        report.is_report_of(settled(descs, cfg, signals)),
        0 <= i < descs.len(),
        decision(descs[i]@, cfg) == Decision::WillRun,
        signal_at(signals, i) is None,
    ensures
        report.failed@.contains((descs[i], None)),
        report.failed@.len() > 0,
{
    let entries = settled(descs, cfg, signals);
    let k = lemma_entry_is_member(entries, i);
    assert(report.failed@[k] == failure_of(members(entries, Bucket::Failed)[k]));
}

/// Settle one case: a case that was filtered out or held back ends so
/// whatever `signal` holds, and a started case ends as its channel says.
pub fn settle_one(decision: Decision, signal: Option<crate::test::Outcome>) -> (state: Settled)
    ensures
        state == settle(decision, signal),
{
    match decision {
        Decision::FilteredOut => Settled::FilteredOut,
        Decision::WillSkip => Settled::Outcome(Outcome::Ignored),
        Decision::WillRun => Settled::Outcome(Outcome::received(signal)),
    }
}

impl Report {
    /// The names that the report lists in `bucket`, in order.
    pub open spec fn names(&self, bucket: Bucket) -> Seq<Seq<char>> {
        match bucket {
            Bucket::Passed => self.passed@.map_values(|d: TestDesc| d@.name),
            Bucket::Failed => self.failed@.map_values(|f: (TestDesc, Option<String>)| f.0@.name),
            Bucket::Measured => self.measured@.map_values(
                |m: (TestDesc, (u64, u64))| m.0@.name,
            ),
            Bucket::Ignored => self.ignored@.map_values(|d: TestDesc| d@.name),
            Bucket::FilteredOut => self.filtered_out@.map_values(|d: TestDesc| d@.name),
        }
    }

    /// Whether this is the report on `entries`: each bucket lists the
    /// entries that belong to it, in the order of `entries`.
    pub open spec fn is_report_of(&self, entries: Seq<Entry>) -> bool {
        &&& self.passed@ =~= members(entries, Bucket::Passed).map_values(|e: Entry| desc_of(e))
        &&& self.failed@ =~= members(entries, Bucket::Failed).map_values(|e: Entry| failure_of(e))
        &&& self.measured@ =~= members(entries, Bucket::Measured).map_values(
            |e: Entry| measurement_of(e),
        )
        &&& self.ignored@ =~= members(entries, Bucket::Ignored).map_values(|e: Entry| desc_of(e))
        &&& self.filtered_out@ =~= members(entries, Bucket::FilteredOut).map_values(
            |e: Entry| desc_of(e),
        )
    }

    /// Sort the registered cases into the five buckets by the state each
    /// ended in, keeping the order of registration within each bucket.
    pub fn collect(entries: &Vec<Entry>) -> (report: Self)
        ensures
            report.is_report_of(entries@),
    {
        let mut report = Report {
            passed: Vec::new(),
            failed: Vec::new(),
            measured: Vec::new(),
            ignored: Vec::new(),
            filtered_out: Vec::new(),
        };
        proof {
            reveal(Seq::filter);
        }
        let mut i: usize = 0;
        while i < entries.len()
            invariant
                i <= entries.len(),
                report.is_report_of(entries@.take(i as int)),
            decreases entries.len() - i,
        {
            let entry = &entries[i];
            proof {
                let before = entries@.take(i as int);
                assert(entries@.take(i + 1) =~= before.push(*entry));
                lemma_members_push(before, *entry, Bucket::Passed);
                lemma_members_push(before, *entry, Bucket::Failed);
                lemma_members_push(before, *entry, Bucket::Measured);
                lemma_members_push(before, *entry, Bucket::Ignored);
                lemma_members_push(before, *entry, Bucket::FilteredOut);
            }
            let desc = entry.0.clone();
            match &entry.1 {
                Settled::FilteredOut => report.filtered_out.push(desc),
                Settled::Outcome(Outcome::Passed) => report.passed.push(desc),
                Settled::Outcome(Outcome::Failed { msg }) => {
                    let msg = match msg {
                        Some(text) => Some(text.clone()),
                        None => None,
                    };
                    report.failed.push((desc, msg))
                },
                Settled::Outcome(Outcome::Canceled) => report.failed.push((desc, None)),
                Settled::Outcome(Outcome::Measured { average, variance }) => report.measured.push(
                    (desc, (*average, *variance)),
                ),
                Settled::Outcome(Outcome::Ignored) => report.ignored.push(desc),
            }
            i += 1;
        }
        assert(entries@.take(i as int) =~= entries@);
        report
    }

    /// Whether the run failed: some case is in the failed bucket.
    pub open spec fn failed_any(&self) -> bool {
        self.failed@.len() > 0
    }

    /// Return an exit status used as a result of the test process: code 0
    /// when no case failed, else code 101. Nothing but the failed bucket
    /// bears on it.
    pub fn status(&self) -> (status: ExitStatus)
        ensures
            status.code() == (if self.failed@.len() == 0 {
                0i32
            } else {
                101i32
            }),
            status.code() == 0 <==> self.failed@.len() == 0,
    {
        if self.failed.len() == 0 {
            ExitStatus::ok()
        } else {
            ExitStatus::failed()
        }
    }

    /// The code with which the process ends after this run: 0 when no
    /// case failed, else 101.
    pub fn exit_code(&self) -> (code: i32)
        ensures
            code == (if self.failed@.len() == 0 {
                0i32
            } else {
                101i32
            }),
    {
        self.status().code()
    }

    /// Return the skipped test cases, each with the reason why it was
    /// skipped: first the ignored ones with `"ignored"`, then the ones
    /// filtered out with `"filtered out"`, each group in its order.
    pub fn skipped(&self) -> (skipped: Vec<(TestDesc, &'static str)>)
        ensures
            skipped@.len() == self.ignored@.len() + self.filtered_out@.len(),
            forall|i: int|
                0 <= i < self.ignored@.len() ==> (#[trigger] skipped@[i]).0 == self.ignored@[i]
                    && skipped@[i].1@ == "ignored"@,
            forall|i: int|
                0 <= i < self.filtered_out@.len() ==> (#[trigger] skipped@[self.ignored@.len()
                    + i]).0 == self.filtered_out@[i] && skipped@[self.ignored@.len() + i].1@
                    == "filtered out"@,
    {
        let mut skipped: Vec<(TestDesc, &'static str)> = Vec::new();
        let mut i: usize = 0;
        while i < self.ignored.len()
            invariant
                i <= self.ignored.len(),
                skipped@.len() == i,
                forall|k: int|
                    0 <= k < i ==> (#[trigger] skipped@[k]).0 == self.ignored@[k] && skipped@[k].1@
                        == "ignored"@,
            decreases self.ignored.len() - i,
        {
            skipped.push((self.ignored[i].clone(), "ignored"));
            i += 1;
        }
        let mut j: usize = 0;
        while j < self.filtered_out.len()
            invariant
                j <= self.filtered_out.len(),
                skipped@.len() == self.ignored@.len() + j,
                forall|k: int|
                    0 <= k < self.ignored@.len() ==> (#[trigger] skipped@[k]).0 == self.ignored@[k]
                        && skipped@[k].1@ == "ignored"@,
                forall|k: int|
                    0 <= k < j ==> (#[trigger] skipped@[self.ignored@.len() + k]).0
                        == self.filtered_out@[k] && skipped@[self.ignored@.len() + k].1@
                        == "filtered out"@,
            decreases self.filtered_out.len() - j,
        {
            skipped.push((self.filtered_out[j].clone(), "filtered out"));
            j += 1;
        }
        skipped
    }

    /// The text of the report, given the two status words as the host
    /// styled them: where cases failed, each failure with its message
    /// and then the names of the failed cases; in any case the line that
    /// sums the run up.
    pub open spec fn text(&self, ok: Seq<char>, failed: Seq<char>) -> Seq<char> {
        (if self.failed@.len() > 0 {
            "\nfailures:\n"@ + failures_text(self.failed@) + "\nfailures:\n"@ + failed_names_text(
                self.failed@,
            )
        } else {
            Seq::<char>::empty()
        }) + "\n"@ + result_text(
            if self.failed@.len() > 0 {
                failed
            } else {
                ok
            },
            self.passed@.len(),
            self.failed@.len(),
            self.ignored@.len(),
            self.measured@.len(),
            self.filtered_out@.len(),
        )
    }

    /// What the report tells of the failures, one after the other.
    fn render_failures(&self) -> (text: String)
        ensures
            text@ == failures_text(self.failed@),
    {
        let mut text = String::new();
        let mut i: usize = 0;
        while i < self.failed.len()
            invariant
                i <= self.failed.len(),
                text@ == failures_text(self.failed@.take(i as int)),
            decreases self.failed.len() - i,
        {
            text.append("---- ");
            text.append(self.failed[i].0.name());
            text.append(" ----\n");
            match &self.failed[i].1 {
                Some(msg) => {
                    text.append(msg.as_str());
                    let len = msg.as_str().unicode_len();
                    let closed = len > 0 && msg.as_str().get_char(len - 1) == '\n';
                    if !closed {
                        text.append("\n");
                    }
                },
                None => {},
            }
            proof {
                assert(self.failed@.take(i + 1).drop_last() =~= self.failed@.take(i as int));
            }
            i += 1;
        }
        proof {
            assert(self.failed@.take(i as int) =~= self.failed@);
        }
        text
    }

    /// The names of the failed cases, one in a line.
    fn render_failed_names(&self) -> (text: String)
        ensures
            text@ == failed_names_text(self.failed@),
    {
        let mut text = String::new();
        let mut i: usize = 0;
        while i < self.failed.len()
            invariant
                i <= self.failed.len(),
                text@ == failed_names_text(self.failed@.take(i as int)),
            decreases self.failed.len() - i,
        {
            text.append("    ");
            text.append(self.failed[i].0.name());
            text.append("\n");
            proof {
                assert(self.failed@.take(i + 1).drop_last() =~= self.failed@.take(i as int));
            }
            i += 1;
        }
        proof {
            assert(self.failed@.take(i as int) =~= self.failed@);
        }
        text
    }

    /// The line that sums the run up, under the given status word.
    fn render_result(&self, status: &str) -> (text: String)
        ensures
            text@ == result_text(
                status@,
                self.passed@.len(),
                self.failed@.len(),
                self.ignored@.len(),
                self.measured@.len(),
                self.filtered_out@.len(),
            ),
    {
        let text = "test result: ".to_owned().concat(status).concat(". ");
        let text = push_u64(text, self.passed.len() as u64).concat(" passed; ");
        let text = push_u64(text, self.failed.len() as u64).concat(" failed; ");
        let text = push_u64(text, self.ignored.len() as u64).concat(" ignored; ");
        let text = push_u64(text, self.measured.len() as u64).concat(" measured; ");
        push_u64(text, self.filtered_out.len() as u64).concat(" filtered out\n")
    }

    /// The text of the report. `ok` and `failed` are the two status words
    /// as the host styled them; the one that fits the run is used.
    pub fn render(&self, ok: &str, failed: &str) -> (text: String)
        ensures
            text@ == self.text(ok@, failed@),
    {
        if self.failed.len() > 0 {
            let details = self.render_failures();
            let names = self.render_failed_names();
            let result = self.render_result(failed);
            "\nfailures:\n".to_owned().concat(details.as_str()).concat("\nfailures:\n").concat(
                names.as_str(),
            ).concat("\n").concat(result.as_str())
        } else {
            let result = self.render_result(ok);
            let text = "\n".to_owned().concat(result.as_str());
            text
        }
    }

    /// The summary of the run for its observers.
    pub fn summary(&self) -> (summary: crate::event::Report)
        ensures
            summary.has_failed() == (self.failed@.len() > 0),
    {
        crate::event::Report::new(self.failed.len() > 0)
    }
}

} // verus!
