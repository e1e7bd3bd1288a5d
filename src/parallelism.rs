//! A gauge of how many requests a service is handling at once.
use vstd::prelude::*;
use std::sync::atomic::{AtomicUsize, Ordering};

verus! {

/// Number of requests in progress. Shared between threads; its value is
/// read for logging only, so nothing is stated about it.
pub struct Parallelism {
    count: AtomicUsize,
}

/// One request in progress: taken by `Parallelism::lease`, given back when
/// dropped.
pub struct Lease<'p> {
    p: &'p Parallelism,
}

impl Parallelism {
    /// A gauge at zero.
    pub fn new() -> (r: Parallelism) {
        Parallelism { count: AtomicUsize::new(0) }
    }

    /// Counts one more request in progress until the lease is dropped.
    pub fn lease(&self) -> (l: Lease<'_>)
        ensures
            l.gauge() == *self,
    {
        self.count.fetch_add(1, Ordering::SeqCst);
        Lease { p: self }
    }

    /// The number of requests in progress at some moment during the call.
    pub fn current(&self) -> (r: usize) {
        self.count.load(Ordering::SeqCst)
    }
}

impl<'p> Lease<'p> {
    /// The gauge this lease counts on.
    pub closed spec fn gauge(self) -> Parallelism {
        *self.p
    }
}

impl<'p> Drop for Lease<'p> {
    fn drop(&mut self)
        opens_invariants none
        no_unwind
    {
        decrement(&self.p.count);
    }
}

/// Relies on `AtomicUsize::fetch_sub`, which wraps on overflow and neither
/// panics nor opens an invariant, as a drop must not.
#[verifier::external_body]
fn decrement(count: &AtomicUsize)
    opens_invariants none
    no_unwind
{
    count.fetch_sub(1, Ordering::SeqCst);
}

} // verus!
