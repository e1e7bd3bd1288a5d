//! The orchestrator's decisions. The runtime spawns the workers, races each
//! phase against its signals, and reports here how each phase ended; the
//! engine answers whether to measure and turns the joined results into the
//! report.
use vstd::prelude::*;
use crate::admission::{Admission, NANOS_PER_SECOND};
use crate::config::Bench;
use crate::multiply::multiply;
use crate::report::{Report, mergeable, merged_samples, merged_errors};
use crate::worker::WorkReport;

verus! {

#[derive(Clone, Copy, Debug, PartialEq, Eq, Structural)]
pub enum RunPhase {
    WarmingUp,
    Measuring,
    Joining,
}

/// How a phase ended.
#[derive(Clone, Copy, Debug, PartialEq, Eq, Structural)]
pub enum Stop {
    /// The phase's duration elapsed.
    Elapsed,
    /// A worker set the run signal.
    CancelledByWorker,
    /// The operator asked the run to stop.
    Interrupted,
}

pub struct Engine {
    config: Bench,
    phase: RunPhase,
    measured: bool,
    begin: u64,
}

/// Abstract state of the orchestrator.
pub struct EngineView {
    pub config: Bench,
    pub phase: RunPhase,
    /// Whether the measurement phase took place.
    pub measured: bool,
    /// Clock reading, in microseconds, when measurement began.
    pub begin: nat,
}

impl View for Engine {
    type V = EngineView;

    closed spec fn view(&self) -> EngineView {
        EngineView {
            config: self.config,
            phase: self.phase,
            measured: self.measured,
            begin: self.begin as nat,
        }
    }
}

impl Engine {
    /// A run about to warm up.
    pub fn new(config: Bench) -> (e: Engine)
        requires
            config.valid(),
        ensures
            e@.config == config,
            e@.phase == RunPhase::WarmingUp,
            !e@.measured,
    {
        Engine { config, phase: RunPhase::WarmingUp, measured: false, begin: 0 }
    }

    pub fn config(&self) -> (r: Bench)
        ensures
            r == self@.config,
    {
        self.config
    }

    pub fn phase(&self) -> (r: RunPhase)
        ensures
            r == self@.phase,
    {
        self.phase
    }

    /// One handle per worker, cloned from `prototype`: exactly as many as the
    /// configured worker count.
    pub fn worker_handles<T: Clone>(&self, prototype: T) -> (r: Vec<T>)
        requires
            self@.config.valid(),
        ensures
            r.len() == self@.config.workers,
            forall|i: int| 0 <= i < r.len() ==> cloned(prototype, #[trigger] r[i]),
            r[r.len() - 1] == prototype,
    {
        multiply(prototype, self.config.workers).into_vec()
    }

    /// Whether the run has a warm-up phase. Without one, workers start out
    /// measuring.
    pub fn warms_up(&self) -> (r: bool)
        ensures
            r == (self@.config.warm_up > 0),
    {
        self.config.warm_up > 0
    }

    /// The parameters of the one limiter that all workers share.
    pub fn admission(&self) -> (a: Admission)
        requires
            self@.config.valid(),
        ensures
            a.interval_nanos == NANOS_PER_SECOND / (self@.config.rate as u64),
            a.burst == 1,
    {
        Admission::for_rate(self.config.rate)
    }

    /// Warm-up ended as `stop` says, at clock reading `now`. The warm-up
    /// signal is to be set in every case. Returns whether to measure; where
    /// not, the run signal is to be set and the workers joined at once.
    pub fn end_warm_up(&mut self, stop: Stop, now: u64) -> (measure: bool)
        requires
            old(self)@.phase == RunPhase::WarmingUp,
        ensures
            measure == (stop == Stop::Elapsed),
            final(self)@.phase == if measure { RunPhase::Measuring } else { RunPhase::Joining },
            final(self)@.measured == measure,
            final(self)@.begin == now,
            final(self)@.config == old(self)@.config,
    {
        self.begin = now;
        if stop == Stop::Elapsed {
            self.phase = RunPhase::Measuring;
            self.measured = true;
            true
        } else {
            self.phase = RunPhase::Joining;
            self.measured = false;
            false
        }
    }

    /// Measurement ended, whatever the cause; the run signal is to be set
    /// and the workers joined.
    pub fn end_measurement(&mut self)
        requires
            old(self)@.phase == RunPhase::Measuring,
        ensures
            final(self)@ == (EngineView { phase: RunPhase::Joining, ..old(self)@ }),
    {
        self.phase = RunPhase::Joining;
    }

    /// Span of the measurement phase if the workers were joined at clock
    /// reading `now`: zero where measurement was skipped.
    pub open spec fn elapsed(self, now: u64) -> nat {
        if self@.measured { (now - self@.begin) as nat } else { 0 }
    }

    /// Merges the joined workers' results into the report.
    pub fn finish(self, results: Vec<WorkReport>, now: u64) -> (r: Report)
        requires
            self@.phase == RunPhase::Joining,
            self@.measured ==> now >= self@.begin,
            results@.len() == self@.config.workers,
            mergeable(results@),
        ensures
            r@.samples == merged_samples(results@),
            r@.errors == merged_errors(results@),
            r@.duration_micros == self.elapsed(now),
            r.wf(),
    {
        let elapsed = if self.measured { now - self.begin } else { 0 };
        Report::new(results, elapsed)
    }
}

} // verus!
