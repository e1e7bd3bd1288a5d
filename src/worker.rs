//! The worker: a state machine that the runtime drives with the outcomes of
//! its waits and requests, and that answers with the next thing to do.
//!
//! A worker warms up until the warm-up signal fires, then measures until the
//! run signal fires. Only successful measured requests give latency samples;
//! failed ones are counted. Without `continue_on_error` a failure cancels the
//! run and ends the worker.
use vstd::prelude::*;
use vstd::multiset::Multiset;
use crate::histogram::{LatencyHistogram, samples, auto_resizes, sigfigs, lowest_discernible, bucket_floor, EXACT_BELOW, MAX_TRACKABLE};

verus! {

broadcast use vstd::multiset::group_multiset_axioms;

/// Significant decimal figures kept by every latency histogram.
pub const SIGNIFICANT_FIGURES: u8 = 3;

#[derive(Clone, Copy, Debug, PartialEq, Eq, Structural)]
pub enum Phase {
    WarmingUp,
    Measuring,
    Done,
}

/// What the runtime observed for a worker.
#[derive(Clone, Copy, Debug, PartialEq, Eq, Structural)]
pub enum Event {
    /// The signal of the current phase fired while waiting for a permit
    /// (warm-up: the warm-up signal; measurement: the run signal).
    /// `run_cancelled` tells whether the run signal is set.
    Cancelled { run_cancelled: bool },
    /// The rate limiter granted a permit.
    Permit,
    /// The request succeeded after `micros` microseconds.
    Succeeded { micros: u64 },
    /// The request failed.
    Failed,
}

/// What the runtime is to do next for a worker.
#[derive(Clone, Copy, Debug, PartialEq, Eq, Structural)]
pub enum Action {
    /// Wait for a permit, racing against the signal of the current phase.
    AwaitPermit,
    /// Issue one request of the run's workload and time it.
    Send,
    /// Set the run signal; the worker is done.
    CancelRun,
    /// The worker is done.
    Stop,
}

/// Abstract state of a worker.
pub struct WorkerView {
    pub phase: Phase,
    pub in_flight: bool,
    pub continue_on_error: bool,
    pub samples: Multiset<u64>,
    pub errors: nat,
    pub warm_up_errors: nat,
}

/// Phase, whether a request is in flight, and action after `e`.
pub open spec fn transition(phase: Phase, in_flight: bool, continue_on_error: bool, e: Event) -> (Phase, bool, Action) {
    match e {
        Event::Cancelled { run_cancelled } => {
            if phase == Phase::WarmingUp && !run_cancelled {
                (Phase::Measuring, false, Action::AwaitPermit)
            } else {
                (Phase::Done, false, Action::Stop)
            }
        },
        Event::Permit => (phase, true, Action::Send),
        Event::Succeeded { .. } => (phase, false, Action::AwaitPermit),
        Event::Failed => {
            if continue_on_error {
                (phase, false, Action::AwaitPermit)
            } else {
                (Phase::Done, false, Action::CancelRun)
            }
        },
    }
}

/// Phase and in-flight flag after the events `s`, from `(p, f)`.
pub open spec fn trace(p: Phase, f: bool, c: bool, s: Seq<Event>) -> (Phase, bool)
    decreases s.len(),
{
    if s.len() == 0 {
        (p, f)
    } else {
        let (q, g) = trace(p, f, c, s.drop_last());
        let (q2, g2, _a) = transition(q, g, c, s.last());
        (q2, g2)
    }
}

/// Number of events of `s` that fail a request during measurement.
pub open spec fn measured_failures(p: Phase, f: bool, c: bool, s: Seq<Event>) -> nat
    decreases s.len(),
{
    if s.len() == 0 {
        0
    } else {
        measured_failures(p, f, c, s.drop_last()) + if trace(p, f, c, s.drop_last()).0 == Phase::Measuring
            && s.last() is Failed { 1nat } else { 0 }
    }
}

/// Number of events of `s` that complete a request successfully during
/// measurement.
pub open spec fn measured_successes(p: Phase, f: bool, c: bool, s: Seq<Event>) -> nat
    decreases s.len(),
{
    if s.len() == 0 {
        0
    } else {
        measured_successes(p, f, c, s.drop_last()) + if trace(p, f, c, s.drop_last()).0 == Phase::Measuring
            && s.last() is Succeeded { 1nat } else { 0 }
    }
}

/// Number of failures among the events `s`.
pub open spec fn failures(s: Seq<Event>) -> nat
    decreases s.len(),
{
    if s.len() == 0 {
        0
    } else {
        failures(s.drop_last()) + if s.last() is Failed { 1nat } else { 0 }
    }
}

/// Each event of `s` answers the action before it: none comes after the
/// worker is done, and outcomes come exactly while a request is in flight.
pub open spec fn well_formed(p: Phase, f: bool, c: bool, s: Seq<Event>) -> bool
    decreases s.len(),
{
    if s.len() == 0 {
        true
    } else {
        let (q, g) = trace(p, f, c, s.drop_last());
        &&& well_formed(p, f, c, s.drop_last())
        &&& q != Phase::Done
        &&& g <==> (s.last() is Succeeded || s.last() is Failed)
    }
}

/// Once no permit is granted any more (the run signal is set), a measuring
/// worker completes at most the one request it has in flight.
pub proof fn lemma_in_flight_bound(f: bool, c: bool, s: Seq<Event>)
    requires
        well_formed(Phase::Measuring, f, c, s),
        forall|i: int| 0 <= i < s.len() ==> !(#[trigger] s[i] is Permit),
    ensures
        measured_successes(Phase::Measuring, f, c, s) + measured_failures(Phase::Measuring, f, c, s)
            <= if f { 1int } else { 0 },
{
    lemma_in_flight_bound_inner(f, c, s);
}

proof fn lemma_in_flight_bound_inner(f: bool, c: bool, s: Seq<Event>)
    requires
        well_formed(Phase::Measuring, f, c, s),
        forall|i: int| 0 <= i < s.len() ==> !(#[trigger] s[i] is Permit),
    ensures
        measured_successes(Phase::Measuring, f, c, s) + measured_failures(Phase::Measuring, f, c, s)
            + if trace(Phase::Measuring, f, c, s).1 { 1int } else { 0 } <= if f { 1int } else { 0 },
    decreases s.len(),
{
    if s.len() > 0 {
        let t = s.drop_last();
        assert forall|i: int| 0 <= i < t.len() implies !(#[trigger] t[i] is Permit) by {
            assert(t[i] == s[i]);
        }
        lemma_in_flight_bound_inner(f, c, t);
        assert(!(s[s.len() - 1] is Permit));
    }
}

/// Feeding `s1` then `s2` is feeding `s2` from where `s1` left the worker.
proof fn lemma_trace_append(p: Phase, f: bool, c: bool, s1: Seq<Event>, s2: Seq<Event>)
    ensures
        ({
            let (q, g) = trace(p, f, c, s1);
            &&& trace(p, f, c, s1 + s2) == trace(q, g, c, s2)
            &&& measured_failures(p, f, c, s1 + s2) == measured_failures(p, f, c, s1) + measured_failures(q, g, c, s2)
            &&& measured_successes(p, f, c, s1 + s2) == measured_successes(p, f, c, s1) + measured_successes(q, g, c, s2)
        }),
    decreases s2.len(),
{
    if s2.len() == 0 {
        assert(s1 + s2 == s1);
    } else {
        lemma_trace_append(p, f, c, s1, s2.drop_last());
        assert((s1 + s2).drop_last() == s1 + s2.drop_last());
        assert((s1 + s2).last() == s2.last());
    }
}

/// A finished worker stays finished and measures nothing more.
proof fn lemma_done_stays_done(f: bool, c: bool, s: Seq<Event>)
    ensures
        trace(Phase::Done, f, c, s).0 == Phase::Done,
        measured_failures(Phase::Done, f, c, s) == 0,
        measured_successes(Phase::Done, f, c, s) == 0,
    decreases s.len(),
{
    if s.len() > 0 {
        lemma_done_stays_done(f, c, s.drop_last());
    }
}

/// With `continue_on_error`, a measuring worker that the run signal has not
/// stopped keeps measuring and counts every failure fed to it.
pub proof fn lemma_failures_counted(f: bool, s: Seq<Event>)
    requires
        forall|i: int| 0 <= i < s.len() ==> !(#[trigger] s[i] is Cancelled),
    ensures
        trace(Phase::Measuring, f, true, s).0 == Phase::Measuring,
        measured_failures(Phase::Measuring, f, true, s) == failures(s),
    decreases s.len(),
{
    if s.len() > 0 {
        let t = s.drop_last();
        assert forall|i: int| 0 <= i < t.len() implies !(#[trigger] t[i] is Cancelled) by {
            assert(t[i] == s[i]);
        }
        lemma_failures_counted(f, t);
        assert(!(s[s.len() - 1] is Cancelled));
    }
}

/// Warm-up never contributes to the measurement: until a worker has seen its
/// warm-up end, no success or failure fed to it is measured.
pub proof fn lemma_warm_up_isolation(f: bool, c: bool, s: Seq<Event>)
    requires
        forall|i: int| 0 <= i < s.len() ==> !(#[trigger] s[i] is Cancelled),
    ensures
        trace(Phase::WarmingUp, f, c, s).0 != Phase::Measuring,
        measured_successes(Phase::WarmingUp, f, c, s) == 0,
        measured_failures(Phase::WarmingUp, f, c, s) == 0,
    decreases s.len(),
{
    if s.len() > 0 {
        let t = s.drop_last();
        assert forall|i: int| 0 <= i < t.len() implies !(#[trigger] t[i] is Cancelled) by {
            assert(t[i] == s[i]);
        }
        lemma_warm_up_isolation(f, c, t);
        assert(!(s[s.len() - 1] is Cancelled));
    }
}

/// Without `continue_on_error`, a failure ends the worker and asks for the
/// run to be cancelled: nothing fed to it afterwards is measured.
pub proof fn lemma_fail_fast(p: Phase, f: bool, s1: Seq<Event>, s2: Seq<Event>)
    ensures
        transition(trace(p, f, false, s1).0, trace(p, f, false, s1).1, false, Event::Failed).2 == Action::CancelRun,
        trace(p, f, false, s1.push(Event::Failed) + s2).0 == Phase::Done,
        measured_successes(p, f, false, s1.push(Event::Failed) + s2) == measured_successes(p, f, false, s1),
        measured_failures(p, f, false, s1.push(Event::Failed) + s2) == measured_failures(p, f, false, s1.push(Event::Failed)),
{
    let s = s1.push(Event::Failed);
    assert(s.drop_last() == s1);
    lemma_trace_append(p, f, false, s, s2);
    let (q, g) = trace(p, f, false, s);
    lemma_done_stays_done(g, false, s2);
}

/// A measuring worker that observes the run signal ends at once: nothing fed
/// to it afterwards is measured.
pub proof fn lemma_run_cancel_observed(f: bool, c: bool, run_cancelled: bool, s: Seq<Event>)
    ensures
        transition(Phase::Measuring, f, c, Event::Cancelled { run_cancelled }).2 == Action::Stop,
        trace(Phase::Measuring, f, c, seq![Event::Cancelled { run_cancelled }] + s).0 == Phase::Done,
        measured_successes(Phase::Measuring, f, c, seq![Event::Cancelled { run_cancelled }] + s) == 0,
        measured_failures(Phase::Measuring, f, c, seq![Event::Cancelled { run_cancelled }] + s) == 0,
{
    let s1 = seq![Event::Cancelled { run_cancelled }];
    assert(s1.drop_last() == Seq::<Event>::empty());
    assert(s1.last() == Event::Cancelled { run_cancelled });
    assert(measured_successes(Phase::Measuring, f, c, s1.drop_last()) == 0);
    assert(measured_failures(Phase::Measuring, f, c, s1.drop_last()) == 0);
    assert(trace(Phase::Measuring, f, c, s1.drop_last()) == (Phase::Measuring, f));
    assert(measured_successes(Phase::Measuring, f, c, s1) == 0);
    assert(measured_failures(Phase::Measuring, f, c, s1) == 0);
    lemma_trace_append(Phase::Measuring, f, c, s1, s);
    lemma_done_stays_done(false, c, s);
}

/// A worker's result: the latencies of its successful measured requests and
/// the number of its failed measured requests.
pub struct WorkReport {
    histogram: LatencyHistogram,
    errors: u64,
}

impl WorkReport {
    pub closed spec fn samples(self) -> Multiset<u64> {
        samples(self.histogram)
    }

    pub closed spec fn errors_spec(self) -> nat {
        self.errors as nat
    }

    pub closed spec fn wf(self) -> bool {
        &&& auto_resizes(self.histogram)
        &&& sigfigs(self.histogram) == SIGNIFICANT_FIGURES
        &&& lowest_discernible(self.histogram) == 1
        &&& self.samples().len() + self.errors_spec() <= u64::MAX
    }

    pub(crate) fn histogram(&self) -> (r: &LatencyHistogram)
        ensures
            samples(*r) == self.samples(),
            self.wf() ==> sigfigs(*r) == SIGNIFICANT_FIGURES && lowest_discernible(*r) == 1,
    {
        &self.histogram
    }

    /// Number of failed measured requests.
    pub fn errors(&self) -> (r: u64)
        ensures
            r == self.errors_spec(),
    {
        self.errors
    }

    /// Number of latency samples.
    pub fn sample_count(&self) -> (r: u64)
        requires
            self.wf(),
        ensures
            r == self.samples().len(),
    {
        self.histogram.len()
    }
}

pub struct Worker {
    phase: Phase,
    in_flight: bool,
    continue_on_error: bool,
    histogram: LatencyHistogram,
    errors: u64,
    warm_up_errors: u64,
}

impl View for Worker {
    type V = WorkerView;

    closed spec fn view(&self) -> WorkerView {
        WorkerView {
            phase: self.phase,
            in_flight: self.in_flight,
            continue_on_error: self.continue_on_error,
            samples: samples(self.histogram),
            errors: self.errors as nat,
            warm_up_errors: self.warm_up_errors as nat,
        }
    }
}

impl Worker {
    pub closed spec fn wf(self) -> bool {
        &&& auto_resizes(self.histogram)
        &&& sigfigs(self.histogram) == SIGNIFICANT_FIGURES
        &&& lowest_discernible(self.histogram) == 1
        &&& samples(self.histogram).len() + self.errors <= u64::MAX
    }

    /// The worker can take `e` now: it is not done, `e` answers the action it
    /// last gave, and, for an outcome, its counters have room for one more.
    pub open spec fn accepts(self, e: Event) -> bool {
        &&& self@.phase != Phase::Done
        &&& self@.in_flight <==> (e is Succeeded || e is Failed)
        &&& e is Succeeded ==> e->micros <= MAX_TRACKABLE
        &&& (e is Succeeded || e is Failed) ==> self@.samples.len() + self@.errors < u64::MAX
            && self@.warm_up_errors < u64::MAX
    }

    /// A worker about to wait for its first warm-up permit.
    pub fn new(continue_on_error: bool) -> (w: Worker)
        ensures
            w.wf(),
            w@.phase == Phase::WarmingUp,
            !w@.in_flight,
            w@.continue_on_error == continue_on_error,
            w@.samples == Multiset::<u64>::empty(),
            w@.errors == 0,
            w@.warm_up_errors == 0,
    {
        Worker {
            phase: Phase::WarmingUp,
            in_flight: false,
            continue_on_error,
            histogram: LatencyHistogram::new(SIGNIFICANT_FIGURES),
            errors: 0,
            warm_up_errors: 0,
        }
    }

    /// A worker of a run without warm-up, about to wait for its first
    /// measured permit.
    pub fn measuring(continue_on_error: bool) -> (w: Worker)
        ensures
            w.wf(),
            w@.phase == Phase::Measuring,
            !w@.in_flight,
            w@.continue_on_error == continue_on_error,
            w@.samples == Multiset::<u64>::empty(),
            w@.errors == 0,
            w@.warm_up_errors == 0,
    {
        let mut w = Worker::new(continue_on_error);
        w.phase = Phase::Measuring;
        w
    }

    /// Whether the counters have room for one more outcome.
    pub fn has_room(&self) -> (r: bool)
        requires
            self.wf(),
        ensures
            r == (self@.samples.len() + self@.errors < u64::MAX && self@.warm_up_errors < u64::MAX),
    {
        let n = self.histogram.len();
        n < u64::MAX - self.errors && self.warm_up_errors < u64::MAX
    }

    pub fn phase(&self) -> (r: Phase)
        ensures
            r == self@.phase,
    {
        self.phase
    }

    /// Number of failed warm-up requests; they are not reported.
    pub fn warm_up_errors(&self) -> (r: u64)
        ensures
            r == self@.warm_up_errors,
    {
        self.warm_up_errors
    }

    /// Takes what the runtime observed and gives the next action.
    pub fn step(&mut self, e: Event) -> (a: Action)
        requires
            old(self).wf(),
            old(self).accepts(e),
        ensures
            final(self).wf(),
            ({
                let (p, f, act) = transition(old(self)@.phase, old(self)@.in_flight, old(self)@.continue_on_error, e);
                &&& final(self)@.phase == p
                &&& final(self)@.in_flight == f
                &&& a == act
            }),
            final(self)@.continue_on_error == old(self)@.continue_on_error,
            old(self)@.phase == Phase::Measuring && e is Succeeded ==> {
                &&& final(self)@.samples == old(self)@.samples.insert(bucket_floor(e->micros))
                &&& e->micros < EXACT_BELOW ==> final(self)@.samples == old(self)@.samples.insert(e->micros)
            },
            !(old(self)@.phase == Phase::Measuring && e is Succeeded) ==> final(self)@.samples == old(self)@.samples,
            final(self)@.errors == old(self)@.errors + if old(self)@.phase == Phase::Measuring && e is Failed { 1int } else { 0 },
            final(self)@.warm_up_errors == old(self)@.warm_up_errors + if old(self)@.phase == Phase::WarmingUp && e is Failed { 1int } else { 0 },
    {
        match e {
            Event::Cancelled { run_cancelled } => {
                if self.phase == Phase::WarmingUp && !run_cancelled {
                    self.phase = Phase::Measuring;
                    Action::AwaitPermit
                } else {
                    self.phase = Phase::Done;
                    Action::Stop
                }
            },
            Event::Permit => {
                self.in_flight = true;
                Action::Send
            },
            Event::Succeeded { micros } => {
                self.in_flight = false;
                if self.phase == Phase::Measuring {
                    self.histogram.record(micros);
                }
                Action::AwaitPermit
            },
            Event::Failed => {
                self.in_flight = false;
                if self.phase == Phase::Measuring {
                    self.errors = self.errors + 1;
                } else {
                    self.warm_up_errors = self.warm_up_errors + 1;
                }
                if self.continue_on_error {
                    Action::AwaitPermit
                } else {
                    self.phase = Phase::Done;
                    Action::CancelRun
                }
            },
        }
    }

    /// Whether the worker can take `e` now.
    pub fn can_take(&self, e: Event) -> (r: bool)
        requires
            self.wf(),
        ensures
            r == self.accepts(e),
    {
        let expects_outcome = match e {
            Event::Succeeded { .. } | Event::Failed => true,
            _ => false,
        };
        let in_range = match e {
            Event::Succeeded { micros } => micros <= MAX_TRACKABLE,
            _ => true,
        };
        self.phase != Phase::Done && self.in_flight == expects_outcome && in_range && (!expects_outcome
            || self.has_room())
    }

    /// Feeds `events` in order for as long as the worker takes them; returns
    /// how many it took.
    pub fn replay(&mut self, events: &Vec<Event>) -> (n: usize)
        requires
            old(self).wf(),
        ensures
            final(self).wf(),
            n <= events.len(),
            n < events.len() ==> !final(self).accepts(events@[n as int]),
            well_formed(old(self)@.phase, old(self)@.in_flight, old(self)@.continue_on_error, events@.take(n as int)),
            (final(self)@.phase, final(self)@.in_flight) == trace(
                old(self)@.phase, old(self)@.in_flight, old(self)@.continue_on_error, events@.take(n as int)),
            final(self)@.continue_on_error == old(self)@.continue_on_error,
            final(self)@.errors == old(self)@.errors + measured_failures(
                old(self)@.phase, old(self)@.in_flight, old(self)@.continue_on_error, events@.take(n as int)),
            final(self)@.samples.len() == old(self)@.samples.len() + measured_successes(
                old(self)@.phase, old(self)@.in_flight, old(self)@.continue_on_error, events@.take(n as int)),
    {
        let ghost p = self@.phase;
        let ghost f = self@.in_flight;
        let ghost c = self@.continue_on_error;
        let ghost errors0 = self@.errors;
        let ghost len0 = self@.samples.len();
        let mut i: usize = 0;
        while i < events.len()
            invariant
                i <= events.len(),
                self.wf(),
                self@.continue_on_error == c,
                well_formed(p, f, c, events@.take(i as int)),
                (self@.phase, self@.in_flight) == trace(p, f, c, events@.take(i as int)),
                self@.errors == errors0 + measured_failures(p, f, c, events@.take(i as int)),
                self@.samples.len() == len0 + measured_successes(p, f, c, events@.take(i as int)),
            ensures
                i <= events.len(),
                i < events.len() ==> !self.accepts(events@[i as int]),
                self.wf(),
                self@.continue_on_error == c,
                well_formed(p, f, c, events@.take(i as int)),
                (self@.phase, self@.in_flight) == trace(p, f, c, events@.take(i as int)),
                self@.errors == errors0 + measured_failures(p, f, c, events@.take(i as int)),
                self@.samples.len() == len0 + measured_successes(p, f, c, events@.take(i as int)),
            decreases events.len() - i,
        {
            let e = events[i];
            if !self.can_take(e) {
                break;
            }
            proof {
                let s = events@.take(i + 1);
                assert(s.drop_last() == events@.take(i as int));
                assert(s.last() == e);
            }
            self.step(e);
            i = i + 1;
        }
        i
    }

    /// Hands over the measured results of a finished worker.
    pub fn finish(self) -> (r: WorkReport)
        requires
            self.wf(),
            self@.phase == Phase::Done,
        ensures
            r.wf(),
            r.samples() == self@.samples,
            r.errors_spec() == self@.errors,
    {
        WorkReport { histogram: self.histogram, errors: self.errors }
    }
}

} // verus!
