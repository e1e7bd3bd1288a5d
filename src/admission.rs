//! Admission control: the shared limiter releases one permit per interval
//! derived from the target rate, with a burst of one.
use vstd::prelude::*;

verus! {

pub const NANOS_PER_SECOND: u64 = 1_000_000_000;

/// Parameters of the limiter shared by all workers of a run.
#[derive(Clone, Copy, Debug, PartialEq, Eq, Structural)]
pub struct Admission {
    /// Nanoseconds between two permits.
    pub interval_nanos: u64,
    /// Permits that may be taken at once.
    pub burst: u32,
}

impl Admission {
    /// One permit per `1 / rate` seconds, rounded down to whole nanoseconds,
    /// and a burst of one.
    pub fn for_rate(rate: u32) -> (a: Admission)
        requires
            rate >= 1,
        ensures
            a.interval_nanos == NANOS_PER_SECOND / (rate as u64),
            a.burst == 1,
            a.interval_nanos * rate <= NANOS_PER_SECOND < (a.interval_nanos + 1) * rate,
            rate <= NANOS_PER_SECOND ==> a.interval_nanos > 0,
    {
        let interval_nanos = NANOS_PER_SECOND / (rate as u64);
        proof {
            let r = rate as int;
            let q = interval_nanos as int;
            let n = NANOS_PER_SECOND as int;
            assert(q == n / r);
            assert(q * r <= n < (q + 1) * r) by (nonlinear_arith)
                requires
                    q == n / r,
                    r >= 1,
            {
                vstd::arithmetic::div_mod::lemma_fundamental_div_mod(n, r);
            }
            if r <= n {
                assert(q >= 1) by (nonlinear_arith)
                    requires
                        q * r <= n < (q + 1) * r,
                        r <= n,
                        r >= 1,
                        q >= 0,
                ;
            }
        }
        Admission { interval_nanos, burst: 1 }
    }
}

/// Grant times, in order, each at least `interval` after the one before: what
/// a limiter with a burst of one hands out.
pub open spec fn spaced(t: Seq<int>, interval: int) -> bool {
    forall|i: int| 0 <= i < t.len() - 1 ==> #[trigger] t[i] + interval <= t[i + 1]
}

proof fn lemma_span(t: Seq<int>, interval: int)
    requires
        t.len() > 0,
        spaced(t, interval),
    ensures
        t[0] + (t.len() - 1) * interval <= t[t.len() - 1],
    decreases t.len(),
{
    if t.len() > 1 {
        let u = t.drop_last();
        assert forall|i: int| 0 <= i < u.len() - 1 implies #[trigger] u[i] + interval <= u[i + 1] by {
            assert(u[i] == t[i] && u[i + 1] == t[i + 1]);
        }
        lemma_span(u, interval);
        assert(t[t.len() - 2] + interval <= t[t.len() - 1]);
        assert(u[u.len() - 1] == t[t.len() - 2]);
        assert((t.len() - 1) * interval == (t.len() - 2) * interval + interval) by (nonlinear_arith);
    } else {
        assert((t.len() - 1) * interval == 0) by (nonlinear_arith)
            requires
                t.len() == 1,
        ;
    }
}

/// Whatever the number of workers, the permits that a burst-one limiter
/// grants within a window of `window` nanoseconds number at most
/// `window / interval + 1`: about the rate times the window's length.
pub proof fn lemma_grants_bounded(t: Seq<int>, interval: int, start: int, window: int)
    requires
        interval > 0,
        window >= 0,
        spaced(t, interval),
        forall|i: int| 0 <= i < t.len() ==> start <= #[trigger] t[i] <= start + window,
    ensures
        t.len() <= window / interval + 1,
{
    if t.len() > 0 {
        lemma_span(t, interval);
        let k = t.len() - 1;
        assert(t[0] >= start && t[k] <= start + window);
        assert(k * interval <= window);
        let q = window / interval;
        assert(k <= q) by (nonlinear_arith)
            requires
                k * interval <= window,
                q == window / interval,
                interval > 0,
                k >= 0,
        {
            vstd::arithmetic::div_mod::lemma_fundamental_div_mod(window, interval);
            if k > q {
                assert(k * interval >= (q + 1) * interval);
            }
        }
    }
}

} // verus!
