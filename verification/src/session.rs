//! A run under way: the registry is frozen, the started cases send their
//! outcomes one by one, and the run is complete when the channel of every
//! started case has resolved.
//!
//! A channel resolves once: to the outcome that the body of the case sent,
//! or to nothing where the sending side went away unsent. What comes for a
//! case whose channel has resolved, or for a case that was never started,
//! is dropped.

use vstd::prelude::*;
use crate::args::{Args, RunConfig};
use crate::event;
use crate::event::received;
use crate::filter::{decision, Decision};
use crate::report::{settle, settle_one, settled, Report, Settled};
use crate::suite::settle_all;
use crate::test::{distinct_names, Outcome, TestDesc};

verus! {

/// The state of a run under way.
#[derive(Debug)]
pub struct Session {
    args: Args,
    descs: Vec<TestDesc>,
    decisions: Vec<Decision>,
    signals: Vec<Option<Outcome>>,
    resolved: Vec<bool>,
}

impl Session {
    /// The arguments that configure the run, for contracts.
    pub closed spec fn spec_args(&self) -> Args {
        self.args
    }

    /// The configuration of the run.
    pub open spec fn config(&self) -> RunConfig {
        self.spec_args()@
    }

    /// The registered cases, in the order of registration.
    pub closed spec fn descs(&self) -> Seq<TestDesc> {
        self.descs@
    }

    /// For each case, what its channel resolved to; `None` too where the
    /// channel has not resolved.
    pub closed spec fn signals(&self) -> Seq<Option<Outcome>> {
        self.signals@
    }

    /// For each case, whether its channel has resolved.
    pub closed spec fn resolved(&self) -> Seq<bool> {
        self.resolved@
    }

    /// The session is in order: it knows of every case whether its channel
    /// has resolved and to what, no name is registered twice, and with
    /// each case stands what the filter decides on it.
    pub closed spec fn wf(&self) -> bool {
        &&& distinct_names(self.descs@)
        &&& self.decisions@.len() == self.descs@.len()
        &&& self.signals@.len() == self.descs@.len()
        &&& self.resolved@.len() == self.descs@.len()
        &&& forall|i: int|
            0 <= i < self.descs@.len() ==> #[trigger] self.decisions@[i] == decision(
                self.descs@[i]@,
                self.args@,
            )
        &&& forall|i: int|
            0 <= i < self.descs@.len() && !(#[trigger] self.resolved@[i]) ==> self.signals@[i] is None
    }

    /// The run waits for the channel of the case at place `slot`: the case
    /// was started and its channel has not resolved.
    pub open spec fn awaits(&self, slot: int) -> bool {
        &&& 0 <= slot < self.descs().len()
        &&& decision(self.descs()[slot]@, self.config()) == Decision::WillRun
        &&& !self.resolved()[slot]
    }

    /// The run waits for no channel.
    pub open spec fn complete(&self) -> bool {
        forall|slot: int| !self.awaits(slot)
    }

    /// A session knows of as many channels as there are cases, and holds
    /// nothing for a channel that has not resolved.
    pub proof fn lemma_shape(&self)
        requires
            self.wf(),
        ensures
            distinct_names(self.descs()),
            self.signals().len() == self.descs().len(),
            self.resolved().len() == self.descs().len(),
            forall|i: int|
                0 <= i < self.descs().len() && !(#[trigger] self.resolved()[i])
                    ==> self.signals()[i] is None,
    {
    }

    /// A session over the given registry in which no channel has resolved.
    pub(crate) fn begin(args: Args, descs: Vec<TestDesc>, decisions: Vec<Decision>) -> (session:
        Self)
        requires
            distinct_names(descs@),
            decisions@.len() == descs@.len(),
            forall|i: int|
                0 <= i < descs@.len() ==> #[trigger] decisions@[i] == decision(descs@[i]@, args@),
        ensures
            session.wf(),
            session.spec_args() == args,
            session.descs() == descs@,
            session.signals() == Seq::new(descs@.len(), |i: int| None::<Outcome>),
            session.resolved() == Seq::new(descs@.len(), |i: int| false),
    {
        let mut signals: Vec<Option<Outcome>> = Vec::new();
        let mut resolved: Vec<bool> = Vec::new();
        let mut i: usize = 0;
        while i < descs.len()
            invariant
                i <= descs.len(),
                signals@ == Seq::new(i as nat, |k: int| None::<Outcome>),
                resolved@ == Seq::new(i as nat, |k: int| false),
            decreases descs.len() - i,
        {
            signals.push(None);
            resolved.push(false);
            i += 1;
        }
        Session { args, descs, decisions, signals, resolved }
    }

    /// The arguments that configure the run.
    pub fn args(&self) -> (args: &Args)
        ensures
            *args == self.spec_args(),
    {
        &self.args
    }

    /// The number of registered cases.
    pub fn len(&self) -> (n: usize)
        ensures
            n == self.descs().len(),
    {
        self.descs.len()
    }

    /// The description of the case at place `slot`.
    pub fn desc(&self, slot: usize) -> (desc: &TestDesc)
        requires
            slot < self.descs().len(),
        ensures
            *desc == self.descs()[slot as int],
    {
        &self.descs[slot]
    }

    /// Whether the run waits for the channel of the case at place `slot`.
    pub fn is_awaited(&self, slot: usize) -> (yes: bool)
        requires
            self.wf(),
        ensures
            yes == self.awaits(slot as int),
    {
        slot < self.descs.len() && self.decisions[slot] == Decision::WillRun
            && !self.resolved[slot]
    }

    /// The channel of the case at place `slot` resolved to `signal`: to
    /// the outcome that was sent, or to nothing where the sending side was
    /// dropped unsent.
    ///
    /// Where the run waits for this channel, the case ends as `signal`
    /// says, and the state it ends in is returned for the observers of
    /// the run. A channel resolves once: where the run does not wait for
    /// this channel, nothing changes and nothing is returned.
    pub fn resolve(&mut self, slot: usize, signal: Option<Outcome>) -> (event: Option<
        event::Outcome,
    >)
        requires
            old(self).wf(),
        ensures
            final(self).wf(),
            final(self).spec_args() == old(self).spec_args(),
            final(self).descs() == old(self).descs(),
            old(self).awaits(slot as int) ==> {
                &&& event == Some(received(signal))
                &&& final(self).signals() == old(self).signals().update(slot as int, signal)
                &&& final(self).resolved() == old(self).resolved().update(slot as int, true)
            },
            !old(self).awaits(slot as int) ==> {
                &&& event is None
                &&& final(self).signals() == old(self).signals()
                &&& final(self).resolved() == old(self).resolved()
            },
    {
        if !self.is_awaited(slot) {
            return None;
        }
        let event = event::Outcome::received(
            match &signal {
                Some(outcome) => Some(outcome.clone()),
                None => None,
            },
        );
        self.signals.set(slot, signal);
        self.resolved.set(slot, true);
        Some(event)
    }

    /// Whether the run is complete: it waits for no channel.
    pub fn is_complete(&self) -> (yes: bool)
        requires
            self.wf(),
        ensures
            yes == self.complete(),
    {
        let mut slot: usize = 0;
        while slot < self.descs.len()
            invariant
                self.wf(),
                slot <= self.descs.len(),
                forall|k: int| 0 <= k < slot ==> !self.awaits(k),
            decreases self.descs.len() - slot,
        {
            if self.is_awaited(slot) {
                return false;
            }
            slot += 1;
        }
        true
    }

    /// The state in which the case at place `slot` has ended, if it has:
    /// nothing for a case whose channel the run still waits for, and for a
    /// place beyond the last case.
    pub fn state(&self, slot: usize) -> (state: Option<Settled>)
        requires
            self.wf(),
        ensures
            state == (if slot >= self.descs().len() || self.awaits(slot as int) {
                None
            } else {
                Some(
                    settle(
                        decision(self.descs()[slot as int]@, self.config()),
                        self.signals()[slot as int],
                    ),
                )
            }),
    {
        if slot >= self.descs.len() || self.is_awaited(slot) {
            return None;
        }
        let signal = match &self.signals[slot] {
            Some(outcome) => Some(outcome.clone()),
            None => None,
        };
        Some(settle_one(self.decisions[slot], signal))
    }

    /// End the run and aggregate its report.
    ///
    /// A run that is not complete cannot end: the session is handed back
    /// as it is. In the report of a complete run each started case stands
    /// as its channel resolved, a case whose sending side was dropped
    /// unsent among the failed ones.
    pub fn finish(self) -> (result: Result<Report, Session>)
        requires
            self.wf(),
        ensures
            match result {
                Ok(report) => self.complete() && report.is_report_of(
                    settled(self.descs(), self.config(), self.signals()),
                ),
                Err(session) => !self.complete() && session == self,
            },
    {
        if !self.is_complete() {
            return Err(self);
        }
        let entries = settle_all(&self.descs, &self.decisions, &self.signals, Ghost(self.args@));
        Ok(Report::collect(&entries))
    }
}

} // verus!
