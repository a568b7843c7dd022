//! The metric set kept by the ingestion handler and scraped by the metrics
//! exporter: three monotone counters and a latency histogram, scoped to the
//! ingestion operation. The counters are tied together by one invariant:
//! every attempted call is accounted for, either still pending or settled
//! as succeeded or failed — no call is dropped or double-counted.

use vstd::prelude::*;

verus! {

/// The sum of a sequence of counters.
pub open spec fn sum_seq(s: Seq<u64>) -> int
    decreases s.len(),
{
    if s.len() == 0 {
        0
    } else {
        s[0] + sum_seq(s.drop_first())
    }
}

/// The sum of counters never drops below any single counter.
pub proof fn lemma_sum_seq_bounds(s: Seq<u64>)
    ensures
        0 <= sum_seq(s),
        forall|i: int| 0 <= i < s.len() ==> #[trigger] s[i] <= sum_seq(s),
    decreases s.len(),
{
    if s.len() > 0 {
        lemma_sum_seq_bounds(s.drop_first());
        assert forall|i: int| 0 <= i < s.len() implies #[trigger] s[i] <= sum_seq(s) by {
            if i > 0 {
                assert(s[i] == s.drop_first()[i - 1]);
            }
        }
    }
}

/// Adding one to one counter adds one to the sum.
proof fn lemma_sum_seq_update(s: Seq<u64>, i: int, v: u64)
    requires
        0 <= i < s.len(),
    ensures
        sum_seq(s.update(i, v)) == sum_seq(s) - s[i] + v,
    decreases s.len(),
{
    if i == 0 {
        assert(s.update(0, v).drop_first() =~= s.drop_first());
    } else {
        assert(s.update(i, v).drop_first() =~= s.drop_first().update(i - 1, v));
        lemma_sum_seq_update(s.drop_first(), i - 1, v);
    }
}

/// The bucket an observation falls into: the first bound at least as large
/// as the value, or one past the last bucket when the value exceeds every
/// bound (the implicit infinite bucket).
pub open spec fn spec_bucket_index(bounds: Seq<u64>, v: u64) -> int
    decreases bounds.len(),
{
    if bounds.len() == 0 {
        0
    } else if v <= bounds[0] {
        0
    } else {
        1 + spec_bucket_index(bounds.drop_first(), v)
    }
}

/// A scan that passed every bound below `i` and stopped at `i` found the
/// bucket index.
proof fn lemma_bucket_index_from_scan(bounds: Seq<u64>, v: u64, i: int)
    requires
        0 <= i <= bounds.len(),
        forall|j: int| 0 <= j < i ==> v > #[trigger] bounds[j],
        i < bounds.len() ==> v <= bounds[i],
    ensures
        spec_bucket_index(bounds, v) == i,
    decreases i,
{
    if i > 0 {
        assert(v > bounds[0]);
        lemma_bucket_index_from_scan(bounds.drop_first(), v, i - 1);
    }
}

/// The counters of the latency histogram after recording one observation.
pub open spec fn spec_observe_counts(bounds: Seq<u64>, counts: Seq<u64>, v: u64) -> Seq<u64> {
    let idx = spec_bucket_index(bounds, v);
    if idx < counts.len() {
        counts.update(idx, (counts[idx] + 1) as u64)
    } else {
        counts
    }
}

/// The mathematical content of a latency histogram.
pub struct HistView {
    /// Upper bounds of the finite buckets, strictly increasing.
    pub bounds: Seq<u64>,
    /// Observations per finite bucket: `counts[i]` holds the observations
    /// above `bounds[i-1]` and at most `bounds[i]`.
    pub counts: Seq<u64>,
    /// The total of all observed values, saturating at the counter limit.
    pub sum: int,
    /// The number of observations.
    pub count: int,
}

/// Well-formedness of a histogram: one counter per bound, bounds strictly
/// increasing, and no bucket holding more than the total observation count.
pub open spec fn hist_wf(h: HistView) -> bool {
    &&& h.counts.len() == h.bounds.len()
    &&& forall|i: int| 0 <= i < h.bounds.len() - 1 ==> #[trigger] h.bounds[i] < h.bounds[i + 1]
    &&& sum_seq(h.counts) <= h.count
    &&& 0 <= h.sum <= u64::MAX
    &&& 0 <= h.count <= u64::MAX
}

/// A latency histogram over integer nanoseconds with fixed bucket bounds.
pub struct Histogram {
    bounds: Vec<u64>,
    counts: Vec<u64>,
    sum: u64,
    count: u64,
}

impl View for Histogram {
    type V = HistView;

    closed spec fn view(&self) -> HistView {
        HistView {
            bounds: self.bounds@,
            counts: self.counts@,
            sum: self.sum as int,
            count: self.count as int,
        }
    }
}

impl Histogram {
    /// An empty histogram with the given bucket bounds.
    pub fn new(bounds: Vec<u64>) -> (r: Histogram)
        requires
            forall|i: int| 0 <= i < bounds@.len() - 1 ==> #[trigger] bounds@[i] < bounds@[i + 1],
        ensures
            hist_wf(r@),
            r@.bounds == bounds@,
            r@.counts.len() == bounds@.len(),
            forall|i: int| 0 <= i < r@.counts.len() ==> #[trigger] r@.counts[i] == 0,
            r@.sum == 0,
            r@.count == 0,
    {
        let mut counts: Vec<u64> = Vec::new();
        let n = bounds.len();
        let mut i: usize = 0;
        while i < n
            invariant
                counts@.len() == i,
                i <= n,
                forall|j: int| 0 <= j < i ==> #[trigger] counts@[j] == 0,
            decreases n - i,
        {
            counts.push(0);
            i += 1;
        }
        proof {
            lemma_sum_seq_zero(counts@);
        }
        Histogram { bounds, counts, sum: 0, count: 0 }
    }

    /// Records one observation: the count rises by one, the sum rises by
    /// the observed value (saturating at the counter limit), and the first
    /// bucket whose bound covers the value — if any does — rises by one.
    pub fn observe(&mut self, v: u64)
        requires
            hist_wf(old(self)@),
            old(self)@.count < u64::MAX,
        ensures
            hist_wf(final (self)@),
            final (self)@.bounds == old(self)@.bounds,
            final (self)@.count == old(self)@.count + 1,
            final (self)@.sum == if old(self)@.sum + v <= u64::MAX {
                old(self)@.sum + v
            } else {
                u64::MAX as int
            },
            final (self)@.counts == spec_observe_counts(old(self)@.bounds, old(self)@.counts, v),
    {
        self.count = self.count + 1;
        if v <= u64::MAX - self.sum {
            self.sum = self.sum + v;
        } else {
            self.sum = u64::MAX;
        }
        let idx = bucket_scan(&self.bounds, v);
        if idx < self.counts.len() {
            proof {
                lemma_sum_seq_bounds(self.counts@);
                lemma_sum_seq_update(
                    self.counts@,
                    idx as int,
                    (self.counts@[idx as int] + 1) as u64,
                );
            }
            let c = self.counts[idx];
            self.counts.set(idx, c + 1);
        }
    }

    /// The bucket bounds.
    pub fn bounds(&self) -> (r: &Vec<u64>)
        ensures
            r@ == self@.bounds,
    {
        &self.bounds
    }

    /// The per-bucket observation counters.
    pub fn counts(&self) -> (r: &Vec<u64>)
        ensures
            r@ == self@.counts,
    {
        &self.counts
    }

    /// The saturating total of the observed values.
    pub fn sum(&self) -> (r: u64)
        ensures
            r == self@.sum,
    {
        self.sum
    }

    /// The number of observations.
    pub fn count(&self) -> (r: u64)
        ensures
            r == self@.count,
    {
        self.count
    }
}

/// The first bucket whose bound covers the value, or the number of buckets
/// when none does.
pub fn bucket_scan(bounds: &Vec<u64>, v: u64) -> (r: usize)
    ensures
        r == spec_bucket_index(bounds@, v),
        r <= bounds@.len(),
{
    let n = bounds.len();
    let mut i: usize = 0;
    while i < n
        invariant
            i <= n,
            n == bounds@.len(),
            forall|j: int| 0 <= j < i ==> v > #[trigger] bounds@[j],
        decreases n - i,
    {
        if v <= bounds[i] {
            proof {
                lemma_bucket_index_from_scan(bounds@, v, i as int);
            }
            return i;
        }
        i += 1;
    }
    proof {
        lemma_bucket_index_from_scan(bounds@, v, n as int);
    }
    n
}

/// A sequence of zeroed counters sums to zero.
proof fn lemma_sum_seq_zero(s: Seq<u64>)
    requires
        forall|i: int| 0 <= i < s.len() ==> #[trigger] s[i] == 0,
    ensures
        sum_seq(s) == 0,
    decreases s.len(),
{
    if s.len() > 0 {
        lemma_sum_seq_zero(s.drop_first());
    }
}

/// The mathematical content of the metric set.
pub struct MetricView {
    pub attempted: int,
    pub succeeded: int,
    pub failed: int,
    /// Calls whose attempt is counted but whose outcome is not yet settled.
    pub pending: int,
    pub latency: HistView,
}

/// The accounting invariant: every attempted call is pending or settled,
/// and the histogram holds exactly one latency observation per settled call.
pub open spec fn metrics_wf(m: MetricView) -> bool {
    &&& hist_wf(m.latency)
    &&& 0 <= m.succeeded
    &&& 0 <= m.failed
    &&& 0 <= m.pending
    &&& m.attempted <= u64::MAX
    &&& m.attempted == m.succeeded + m.failed + m.pending
    &&& m.latency.count == m.succeeded + m.failed
}

/// The counters and the latency histogram of the ingestion operation.
/// Mutated only by the ingestion handler; the exporter takes read-only
/// snapshots. There is no reset operation: all counters are monotone.
pub struct MetricSet {
    attempted: u64,
    succeeded: u64,
    failed: u64,
    pending: u64,
    latency: Histogram,
}

impl View for MetricSet {
    type V = MetricView;

    closed spec fn view(&self) -> MetricView {
        MetricView {
            attempted: self.attempted as int,
            succeeded: self.succeeded as int,
            failed: self.failed as int,
            pending: self.pending as int,
            latency: self.latency@,
        }
    }
}

/// The bucket bounds of the ingestion latency histogram, in nanoseconds:
/// one millisecond up to ten seconds.
pub open spec fn spec_latency_bounds() -> Seq<u64> {
    seq![1000000u64, 10000000u64, 100000000u64, 1000000000u64, 10000000000u64]
}

impl MetricSet {
    /// A fresh metric set: nothing attempted, nothing observed.
    pub fn new() -> (r: MetricSet)
        ensures
            metrics_wf(r@),
            r@.attempted == 0,
            r@.succeeded == 0,
            r@.failed == 0,
            r@.pending == 0,
            r@.latency.count == 0,
            r@.latency.sum == 0,
            r@.latency.bounds == spec_latency_bounds(),
            forall|i: int| 0 <= i < r@.latency.counts.len() ==> #[trigger] r@.latency.counts[i] == 0,
    {
        let mut bounds: Vec<u64> = Vec::new();
        bounds.push(1000000);
        bounds.push(10000000);
        bounds.push(100000000);
        bounds.push(1000000000);
        bounds.push(10000000000);
        proof {
            assert(bounds@ =~= spec_latency_bounds());
        }
        let latency = Histogram::new(bounds);
        MetricSet { attempted: 0, succeeded: 0, failed: 0, pending: 0, latency }
    }

    /// Counts one inbound call as attempted, its outcome still open.
    pub fn begin_request(&mut self)
        requires
            metrics_wf(old(self)@),
            old(self)@.attempted < u64::MAX,
        ensures
            metrics_wf(final (self)@),
            final (self)@.attempted == old(self)@.attempted + 1,
            final (self)@.pending == old(self)@.pending + 1,
            final (self)@.succeeded == old(self)@.succeeded,
            final (self)@.failed == old(self)@.failed,
            final (self)@.latency == old(self)@.latency,
    {
        self.attempted = self.attempted + 1;
        self.pending = self.pending + 1;
    }

    /// Settles one pending call: on success the succeeded counter rises by
    /// one, on failure the failed counter does, and either way the latency
    /// of the call is observed.
    pub fn end_request(&mut self, ok: bool, latency_nanos: u64)
        requires
            metrics_wf(old(self)@),
            old(self)@.pending > 0,
        ensures
            metrics_wf(final (self)@),
            final (self)@.attempted == old(self)@.attempted,
            final (self)@.pending == old(self)@.pending - 1,
            final (self)@.succeeded == old(self)@.succeeded + if ok {
                1int
            } else {
                0int
            },
            final (self)@.failed == old(self)@.failed + if ok {
                0int
            } else {
                1int
            },
            final (self)@.latency.bounds == old(self)@.latency.bounds,
            final (self)@.latency.count == old(self)@.latency.count + 1,
            final (self)@.latency.sum == if old(self)@.latency.sum + latency_nanos <= u64::MAX {
                old(self)@.latency.sum + latency_nanos
            } else {
                u64::MAX as int
            },
            final (self)@.latency.counts == spec_observe_counts(
                old(self)@.latency.bounds,
                old(self)@.latency.counts,
                latency_nanos,
            ),
    {
        self.pending = self.pending - 1;
        if ok {
            self.succeeded = self.succeeded + 1;
        } else {
            self.failed = self.failed + 1;
        }
        self.latency.observe(latency_nanos);
    }

    /// The attempted-call counter.
    pub fn attempted(&self) -> (r: u64)
        ensures
            r == self@.attempted,
    {
        self.attempted
    }

    /// The succeeded-call counter.
    pub fn succeeded(&self) -> (r: u64)
        ensures
            r == self@.succeeded,
    {
        self.succeeded
    }

    /// The failed-call counter.
    pub fn failed(&self) -> (r: u64)
        ensures
            r == self@.failed,
    {
        self.failed
    }

    /// The number of calls whose outcome is not yet settled.
    pub fn pending(&self) -> (r: u64)
        ensures
            r == self@.pending,
    {
        self.pending
    }

    /// The latency histogram.
    pub fn latency(&self) -> (r: &Histogram)
        ensures
            r@ == self@.latency,
    {
        &self.latency
    }
}

/// No call is lost: once every attempted call is settled, the attempted
/// counter equals the succeeded and failed counters together. This holds
/// after any sequence of calls, since every attempt is counted exactly once
/// when it begins and settled exactly once when it ends.
pub proof fn lemma_no_call_lost(m: MetricView)
    requires
        metrics_wf(m),
        m.pending == 0,
    ensures
        m.attempted == m.succeeded + m.failed,
{
}

} // verus!
