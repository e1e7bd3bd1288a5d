//! Latency histograms, kept in `hdrhistogram::Histogram<u64>`.
//!
//! A histogram is modelled by the multiset of the samples it holds, each taken
//! at the histogram's resolution (the lowest value of its bucket), and by the
//! settings that fix that resolution: significant figures and lowest
//! discernible value, and whether it grows to fit new values.
use vstd::prelude::*;
use vstd::multiset::Multiset;

verus! {

/// A latency histogram in microseconds. The field is for reading quantiles
/// outside the verified code, since they take floating-point arguments; the
/// verified code changes the histogram only through the methods below.
#[verifier::external_body]
pub struct LatencyHistogram {
    pub hdr: hdrhistogram::Histogram<u64>,
}

/// The samples that a histogram holds, each at the histogram's resolution.
pub uninterp spec fn samples(h: LatencyHistogram) -> Multiset<u64>;

/// Whether the histogram resizes itself to take larger values.
pub uninterp spec fn auto_resizes(h: LatencyHistogram) -> bool;

/// The significant decimal figures that the histogram was made with.
pub uninterp spec fn sigfigs(h: LatencyHistogram) -> u8;

/// The lowest discernible value that the histogram was made with.
pub uninterp spec fn lowest_discernible(h: LatencyHistogram) -> u64;

/// With 3 significant figures and a lowest discernible value of 1, every
/// value below this one has a bucket of its own.
pub const EXACT_BELOW: u64 = 2048;

/// The lowest value of the bucket that holds `value`, with 3 significant
/// figures and a lowest discernible value of 1: the value itself below
/// 2048; above, each doubling of the range halves the resolution.
pub open spec fn bucket_floor(value: u64) -> u64
    decreases value,
{
    if value < EXACT_BELOW {
        value
    } else {
        (2 * bucket_floor(value / 2)) as u64
    }
}

/// Largest value that a resizing histogram is documented to track.
pub const MAX_TRACKABLE: u64 = 4611686018427387903;

impl LatencyHistogram {
    /// Relies on `Histogram::new`: an empty, auto-resizing histogram with a
    /// lowest discernible value of 1; it fails only for more than 5
    /// significant figures.
    #[verifier::external_body]
    pub(crate) fn new(sigfig: u8) -> (h: LatencyHistogram)
        requires
            sigfig <= 5,
        ensures
            samples(h) == Multiset::<u64>::empty(),
            auto_resizes(h),
            sigfigs(h) == sigfig,
            lowest_discernible(h) == 1,
    {
        LatencyHistogram {
            hdr: hdrhistogram::Histogram::new(sigfig).expect("at most five significant figures"),
        }
    }

    /// Relies on `Histogram::record`: one more sample, counted in the bucket
    /// of `value` (`lowest_equivalent` gives its lowest value); with
    /// auto-resizing it fails only where a count array could not be indexed
    /// by `usize`, which no supported target reaches.
    #[verifier::external_body]
    pub(crate) fn record(&mut self, value: u64)
        requires
            auto_resizes(*old(self)),
            sigfigs(*old(self)) == 3,
            lowest_discernible(*old(self)) == 1,
            value <= MAX_TRACKABLE,
            samples(*old(self)).len() < u64::MAX,
        ensures
            samples(*final(self)) == samples(*old(self)).insert(bucket_floor(value)),
            auto_resizes(*final(self)),
            sigfigs(*final(self)) == sigfigs(*old(self)),
            lowest_discernible(*final(self)) == lowest_discernible(*old(self)),
    {
        self.hdr.record(value).expect("an auto-resizing histogram takes the value")
    }

    /// Relies on `Histogram::add`: the counts of `source` are added bucket by
    /// bucket, which keeps every sample where both histograms have the same
    /// significant figures and lowest discernible value; with auto-resizing it fails only where a count
    /// array could not be indexed by `usize`.
    #[verifier::external_body]
    pub(crate) fn add(&mut self, source: &LatencyHistogram)
        requires
            auto_resizes(*old(self)),
            sigfigs(*old(self)) == sigfigs(*source),
            lowest_discernible(*old(self)) == lowest_discernible(*source),
            samples(*old(self)).len() + samples(*source).len() <= u64::MAX,
        ensures
            samples(*final(self)) == samples(*old(self)).add(samples(*source)),
            auto_resizes(*final(self)),
            sigfigs(*final(self)) == sigfigs(*old(self)),
            lowest_discernible(*final(self)) == lowest_discernible(*old(self)),
    {
        self.hdr.add(&source.hdr).expect("an auto-resizing histogram takes the source")
    }

    /// Relies on `Histogram::len`: the number of samples recorded.
    #[verifier::external_body]
    pub(crate) fn len(&self) -> (r: u64)
        ensures
            samples(*self).len() <= u64::MAX ==> r == samples(*self).len(),
    {
        self.hdr.len()
    }
}

} // verus!
