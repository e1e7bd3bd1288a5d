//! Run configuration, validated at construction.
use vstd::prelude::*;

verus! {

/// The request shape that every worker of a run issues.
#[derive(Clone, Copy, Debug, PartialEq, Eq, Structural)]
pub enum Workload {
    Inty,
    Stringy,
    Mixed,
}

/// Why a configuration was refused.
#[derive(Clone, Copy, Debug, PartialEq, Eq, Structural)]
pub enum ConfigError {
    /// The worker count is zero.
    NoWorkers,
    /// The target rate is zero requests per second.
    ZeroRate,
    /// A duration in seconds does not fit in microseconds as `u64`.
    DurationTooLong,
}

pub const MICROS_PER_SECOND: u64 = 1_000_000;

/// Longest phase, in seconds, whose length in microseconds fits in `u64`.
pub const MAX_SECONDS: u64 = 18446744073709;

/// The parameters of one run. Immutable once built.
#[derive(Clone, Copy, Debug, PartialEq, Eq, Structural)]
pub struct Bench {
    pub workload: Workload,
    /// Number of concurrent workers.
    pub workers: usize,
    /// Upper limit of requests per second, over all workers.
    pub rate: u32,
    /// Seconds of measurement.
    pub duration: u64,
    /// Upper bound, in microseconds, of the random delay added after a permit.
    pub jitter: u64,
    /// Whether a failed request leaves the run going.
    pub continue_on_error: bool,
    /// Seconds of warm-up before measurement.
    pub warm_up: u64,
}

impl Bench {
    /// The configuration is usable: workers and rate are positive and both
    /// phases fit in microseconds.
    pub open spec fn valid(self) -> bool {
        &&& self.workers >= 1
        &&& self.rate >= 1
        &&& self.duration <= MAX_SECONDS
        &&& self.warm_up <= MAX_SECONDS
    }

    /// Which error, if any, a configuration with these fields is refused with.
    pub open spec fn refusal(workers: usize, rate: u32, duration: u64, warm_up: u64) -> Option<ConfigError> {
        if workers == 0 {
            Some(ConfigError::NoWorkers)
        } else if rate == 0 {
            Some(ConfigError::ZeroRate)
        } else if duration > MAX_SECONDS || warm_up > MAX_SECONDS {
            Some(ConfigError::DurationTooLong)
        } else {
            None
        }
    }

    /// Validates the fields and builds the configuration.
    pub fn new(
        workload: Workload,
        workers: usize,
        rate: u32,
        duration: u64,
        jitter: u64,
        continue_on_error: bool,
        warm_up: u64,
    ) -> (r: Result<Bench, ConfigError>)
        ensures
            match Self::refusal(workers, rate, duration, warm_up) {
                Some(e) => r == Err::<Bench, ConfigError>(e),
                None => r == Ok::<Bench, ConfigError>(Bench {
                    workload,
                    workers,
                    rate,
                    duration,
                    jitter,
                    continue_on_error,
                    warm_up,
                }),
            },
            r is Ok ==> r->Ok_0.valid(),
    {
        if workers == 0 {
            Err(ConfigError::NoWorkers)
        } else if rate == 0 {
            Err(ConfigError::ZeroRate)
        } else if duration > MAX_SECONDS || warm_up > MAX_SECONDS {
            Err(ConfigError::DurationTooLong)
        } else {
            Ok(Bench { workload, workers, rate, duration, jitter, continue_on_error, warm_up })
        }
    }

    /// Whether the configuration is usable (fields may have been set by hand).
    pub fn is_valid(&self) -> (r: bool)
        ensures
            r == self.valid(),
    {
        self.workers >= 1 && self.rate >= 1 && self.duration <= MAX_SECONDS && self.warm_up <= MAX_SECONDS
    }

    /// Length of the measurement phase in microseconds.
    pub fn duration_micros(&self) -> (r: u64)
        requires
            self.valid(),
        ensures
            r == self.duration * MICROS_PER_SECOND,
    {
        self.duration * MICROS_PER_SECOND
    }

    /// Length of the warm-up phase in microseconds.
    pub fn warm_up_micros(&self) -> (r: u64)
        requires
            self.valid(),
        ensures
            r == self.warm_up * MICROS_PER_SECOND,
    {
        self.warm_up * MICROS_PER_SECOND
    }
}

} // verus!
