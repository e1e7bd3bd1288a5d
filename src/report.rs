//! The report of a run: the per-worker results merged once, at the end.
use vstd::prelude::*;
use vstd::multiset::Multiset;
use crate::histogram::{LatencyHistogram, samples, auto_resizes, sigfigs, lowest_discernible};
use crate::worker::{WorkReport, SIGNIFICANT_FIGURES};

verus! {

broadcast use vstd::multiset::group_multiset_axioms;

/// The samples of all reports, merged in order.
pub open spec fn merged_samples(s: Seq<WorkReport>) -> Multiset<u64>
    decreases s.len(),
{
    if s.len() == 0 {
        Multiset::empty()
    } else {
        merged_samples(s.drop_last()).add(s.last().samples())
    }
}

/// The error counts of all reports, summed.
pub open spec fn merged_errors(s: Seq<WorkReport>) -> nat
    decreases s.len(),
{
    if s.len() == 0 {
        0
    } else {
        merged_errors(s.drop_last()) + s.last().errors_spec()
    }
}

/// Every report is well formed and the merged counts fit in `u64`.
pub open spec fn mergeable(s: Seq<WorkReport>) -> bool {
    &&& forall|i: int| 0 <= i < s.len() ==> (#[trigger] s[i]).wf()
    &&& merged_samples(s).len() + merged_errors(s) <= u64::MAX
}

proof fn lemma_merged_prefix(s: Seq<WorkReport>, i: int)
    requires
        0 <= i <= s.len(),
    ensures
        merged_samples(s.take(i)).len() <= merged_samples(s).len(),
        merged_errors(s.take(i)) <= merged_errors(s),
    decreases s.len() - i,
{
    if i < s.len() {
        lemma_merged_prefix(s, i + 1);
        assert(s.take(i + 1).drop_last() == s.take(i));
    } else {
        assert(s.take(i) == s);
    }
}

/// Merged latencies, merged error count and measured wall-clock span of a run.
pub struct Report {
    histogram: LatencyHistogram,
    errors: u64,
    duration_micros: u64,
}

/// Abstract contents of a report.
pub struct ReportView {
    pub samples: Multiset<u64>,
    pub errors: nat,
    pub duration_micros: nat,
}

impl View for Report {
    type V = ReportView;

    closed spec fn view(&self) -> ReportView {
        ReportView {
            samples: samples(self.histogram),
            errors: self.errors as nat,
            duration_micros: self.duration_micros as nat,
        }
    }
}

impl Report {
    pub closed spec fn wf(self) -> bool {
        samples(self.histogram).len() + self.errors <= u64::MAX
    }

    /// Successful samples plus errors.
    pub open spec fn total_requests_spec(self) -> nat {
        self@.samples.len() + self@.errors
    }

    /// Merges the workers' results, in order, over a measurement of
    /// `duration_micros` microseconds.
    pub fn new(work_reports: Vec<WorkReport>, duration_micros: u64) -> (r: Report)
        requires
            mergeable(work_reports@),
        ensures
            r.wf(),
            r@.samples == merged_samples(work_reports@),
            r@.errors == merged_errors(work_reports@),
            r@.duration_micros == duration_micros,
    {
        let mut histogram = LatencyHistogram::new(SIGNIFICANT_FIGURES);
        let mut errors: u64 = 0;
        let mut i: usize = 0;
        while i < work_reports.len()
            invariant
                0 <= i <= work_reports.len(),
                mergeable(work_reports@),
                auto_resizes(histogram),
                sigfigs(histogram) == SIGNIFICANT_FIGURES,
                lowest_discernible(histogram) == 1,
                samples(histogram) == merged_samples(work_reports@.take(i as int)),
                errors == merged_errors(work_reports@.take(i as int)),
            decreases work_reports.len() - i,
        {
            let w = &work_reports[i];
            proof {
                let s = work_reports@;
                assert(s.take(i + 1).drop_last() == s.take(i as int));
                assert(s.take(i + 1).last() == s[i as int]);
                lemma_merged_prefix(s, i + 1);
            }
            histogram.add(w.histogram());
            errors = errors + w.errors();
            i = i + 1;
        }
        proof {
            assert(work_reports@.take(i as int) == work_reports@);
        }
        Report { histogram, errors, duration_micros }
    }

    /// The merged latency histogram.
    pub fn histogram(&self) -> (r: &LatencyHistogram)
        ensures
            samples(*r) == self@.samples,
    {
        &self.histogram
    }

    /// Number of failed measured requests.
    pub fn errors(&self) -> (r: u64)
        ensures
            r == self@.errors,
    {
        self.errors
    }

    /// Number of successful measured requests.
    pub fn sample_count(&self) -> (r: u64)
        requires
            self.wf(),
        ensures
            r == self@.samples.len(),
    {
        self.histogram.len()
    }

    /// Successful plus failed measured requests.
    pub fn total_requests(&self) -> (r: u64)
        requires
            self.wf(),
        ensures
            r == self.total_requests_spec(),
    {
        self.histogram.len() + self.errors
    }

    /// Wall-clock span of the measurement phase.
    pub fn duration_micros(&self) -> (r: u64)
        ensures
            r == self@.duration_micros,
    {
        self.duration_micros
    }
}

/// Every request is either a latency sample or an error; where there is no
/// error, the histogram holds every request.
pub proof fn lemma_total_requests(r: Report)
    ensures
        r.total_requests_spec() == r@.samples.len() + r@.errors,
        r@.errors == 0 ==> r@.samples.len() == r.total_requests_spec(),
{
}

/// Merging is associative: merging two runs of results one after the other
/// gives the merge of the two merges.
pub proof fn lemma_merge_concat(s1: Seq<WorkReport>, s2: Seq<WorkReport>)
    ensures
        merged_samples(s1 + s2) == merged_samples(s1).add(merged_samples(s2)),
        merged_errors(s1 + s2) == merged_errors(s1) + merged_errors(s2),
    decreases s2.len(),
{
    if s2.len() == 0 {
        assert(s1 + s2 == s1);
        assert(merged_samples(s1) =~= merged_samples(s1).add(Multiset::empty()));
    } else {
        lemma_merge_concat(s1, s2.drop_last());
        assert((s1 + s2).drop_last() == s1 + s2.drop_last());
        assert((s1 + s2).last() == s2.last());
        assert(merged_samples(s1 + s2) =~= merged_samples(s1).add(merged_samples(s2)));
    }
}

/// Merging is order-independent: results merged in any order give the same
/// histogram contents and the same error count.
pub proof fn lemma_merge_permutation(s1: Seq<WorkReport>, s2: Seq<WorkReport>)
    requires
        s1.to_multiset() == s2.to_multiset(),
    ensures
        merged_samples(s1) == merged_samples(s2),
        merged_errors(s1) == merged_errors(s2),
    decreases s1.len(),
{
    broadcast use vstd::seq_lib::group_to_multiset_ensures;
    if s1.len() == 0 {
        assert(s2.to_multiset().len() == 0);
        assert(s2 =~= s1);
    } else {
        let x = s1.last();
        let t1 = s1.drop_last();
        assert(t1.push(x) == s1);
        assert(s2.to_multiset().count(x) > 0);
        assert(s2.contains(x));
        let j = choose|j: int| 0 <= j < s2.len() && s2[j] == x;
        let t2 = s2.remove(j);
        assert(t2.to_multiset() =~= t1.to_multiset());
        lemma_merge_permutation(t1, t2);
        let a = s2.take(j);
        let b = s2.skip(j + 1);
        assert(s2 =~= (a + seq![x]) + b);
        assert(t2 =~= a + b);
        lemma_merge_concat(a + seq![x], b);
        lemma_merge_concat(a, seq![x]);
        lemma_merge_concat(a, b);
        assert(seq![x].drop_last() =~= Seq::<WorkReport>::empty());
        assert(seq![x].last() == x);
        assert(merged_samples(Seq::<WorkReport>::empty()) == Multiset::<u64>::empty());
        assert(merged_errors(Seq::<WorkReport>::empty()) == 0);
        assert(merged_samples(seq![x]) =~= Multiset::empty().add(x.samples()));
        assert(merged_errors(seq![x]) == x.errors_spec());
        assert(merged_samples(s1) =~= merged_samples(s2));
    }
}

/// Merging two results in either order gives the same histogram contents and
/// the same error count.
pub proof fn lemma_merge_order(a: WorkReport, b: WorkReport)
    ensures
        merged_samples(seq![a, b]) == merged_samples(seq![b, a]),
        merged_errors(seq![a, b]) == merged_errors(seq![b, a]),
{
    reveal_with_fuel(merged_samples, 3);
    reveal_with_fuel(merged_errors, 3);
    assert(seq![a, b].drop_last() == seq![a]);
    assert(seq![b, a].drop_last() == seq![b]);
    assert(seq![a].drop_last() == Seq::<WorkReport>::empty());
    assert(seq![b].drop_last() == Seq::<WorkReport>::empty());
    assert(merged_samples(seq![a, b]) =~= merged_samples(seq![b, a]));
}

} // verus!
