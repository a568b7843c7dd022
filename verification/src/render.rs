//! Rendering a metric snapshot in the pull-based text exposition format:
//! one `# TYPE` line per metric, one sample line per counter, and for the
//! histogram one cumulative line per bucket, a line for the implicit
//! infinite bucket, and the sum and count lines. The renderer is exact:
//! its contract gives the rendered text character for character.

use vstd::prelude::*;
use crate::metrics::{sum_seq, HistView, MetricSet, MetricView, hist_wf, metrics_wf};

verus! {

/// The decimal digit for one value below ten.
pub open spec fn spec_digit(n: int) -> char {
    if n == 0 {
        '0'
    } else if n == 1 {
        '1'
    } else if n == 2 {
        '2'
    } else if n == 3 {
        '3'
    } else if n == 4 {
        '4'
    } else if n == 5 {
        '5'
    } else if n == 6 {
        '6'
    } else if n == 7 {
        '7'
    } else if n == 8 {
        '8'
    } else {
        '9'
    }
}

/// The decimal rendering of a nonnegative integer, most significant digit
/// first, without leading zeroes (zero itself renders as one digit).
pub open spec fn spec_decimal(n: int) -> Seq<char>
    decreases n,
{
    if n < 10 {
        seq![spec_digit(n)]
    } else {
        spec_decimal(n / 10) + seq![spec_digit(n % 10)]
    }
}

/// The one-character string for one decimal digit.
fn digit_str(d: u64) -> (r: &'static str)
    requires
        d < 10,
    ensures
        r@ == seq![spec_digit(d as int)],
{
    proof {
        reveal_strlit("0");
        reveal_strlit("1");
        reveal_strlit("2");
        reveal_strlit("3");
        reveal_strlit("4");
        reveal_strlit("5");
        reveal_strlit("6");
        reveal_strlit("7");
        reveal_strlit("8");
        reveal_strlit("9");
    }
    let r = if d == 0 {
        "0"
    } else if d == 1 {
        "1"
    } else if d == 2 {
        "2"
    } else if d == 3 {
        "3"
    } else if d == 4 {
        "4"
    } else if d == 5 {
        "5"
    } else if d == 6 {
        "6"
    } else if d == 7 {
        "7"
    } else if d == 8 {
        "8"
    } else {
        "9"
    };
    proof {
        assert(r@ =~= seq![spec_digit(d as int)]);
    }
    r
}

/// Renders a counter value in decimal.
pub fn format_u64(n: u64) -> (r: String)
    ensures
        r@ == spec_decimal(n as int),
    decreases n,
{
    let d = digit_str(n % 10);
    if n < 10 {
        String::from_str(d)
    } else {
        let mut s = format_u64(n / 10);
        s.append(d);
        s
    }
}

/// One counter sample with its type line:
/// `# TYPE <name> counter\n<name> <value>\n`.
pub open spec fn spec_counter_block(name: Seq<char>, value: int) -> Seq<char> {
    "# TYPE "@ + name + " counter\n"@ + name + " "@ + spec_decimal(value) + "\n"@
}

fn counter_block(name: &str, value: u64) -> (r: String)
    ensures
        r@ == spec_counter_block(name@, value as int),
{
    let mut s = String::from_str("# TYPE ");
    s.append(name);
    s.append(" counter\n");
    s.append(name);
    s.append(" ");
    let v = format_u64(value);
    s.append(v.as_str());
    s.append("\n");
    proof {
        assert(s@ =~= spec_counter_block(name@, value as int));
    }
    s
}

/// One cumulative bucket line:
/// `<name>_bucket{le="<bound>"} <cumulative>\n`.
pub open spec fn spec_bucket_line(name: Seq<char>, bound: int, cumulative: int) -> Seq<char> {
    name + "_bucket{le=\""@ + spec_decimal(bound) + "\"} "@ + spec_decimal(cumulative) + "\n"@
}

/// The first `n` cumulative bucket lines of the histogram, in bucket order.
pub open spec fn spec_bucket_lines(name: Seq<char>, h: HistView, n: int) -> Seq<char>
    decreases n,
{
    if n <= 0 {
        Seq::empty()
    } else {
        spec_bucket_lines(name, h, n - 1) + spec_bucket_line(
            name,
            h.bounds[n - 1] as int,
            sum_seq(h.counts.take(n)),
        )
    }
}

/// The histogram rendered whole: its type line, every finite bucket line,
/// the infinite bucket (which always holds the full count), and the sum
/// and count samples.
pub open spec fn spec_histogram_block(name: Seq<char>, h: HistView) -> Seq<char> {
    "# TYPE "@ + name + " histogram\n"@ + spec_bucket_lines(name, h, h.bounds.len() as int) + name
        + "_bucket{le=\"+Inf\"} "@ + spec_decimal(h.count) + "\n"@ + name + "_sum "@ + spec_decimal(
        h.sum,
    ) + "\n"@ + name + "_count "@ + spec_decimal(h.count) + "\n"@
}

fn bucket_line(name: &str, bound: u64, cumulative: u64) -> (r: String)
    ensures
        r@ == spec_bucket_line(name@, bound as int, cumulative as int),
{
    let mut s = String::from_str(name);
    s.append("_bucket{le=\"");
    let b = format_u64(bound);
    s.append(b.as_str());
    s.append("\"} ");
    let c = format_u64(cumulative);
    s.append(c.as_str());
    s.append("\n");
    proof {
        assert(s@ =~= spec_bucket_line(name@, bound as int, cumulative as int));
    }
    s
}

/// A prefix sum of counters stays within the full sum.
proof fn lemma_take_sum_bounds(s: Seq<u64>, n: int)
    requires
        0 <= n <= s.len(),
    ensures
        0 <= sum_seq(s.take(n)) <= sum_seq(s),
    decreases s.len(),
{
    crate::metrics::lemma_sum_seq_bounds(s.take(n));
    crate::metrics::lemma_sum_seq_bounds(s);
    if n == 0 {
    } else if s.len() > 0 {
        assert(s.take(n).drop_first() =~= s.drop_first().take(n - 1));
        lemma_take_sum_bounds(s.drop_first(), n - 1);
    }
}

/// Extending a prefix of counters by one element adds that element to the
/// prefix sum.
proof fn lemma_take_sum_step(s: Seq<u64>, n: int)
    requires
        0 <= n < s.len(),
    ensures
        sum_seq(s.take(n + 1)) == sum_seq(s.take(n)) + s[n],
    decreases n,
{
    if n == 0 {
        assert(s.take(1) =~= seq![s[0]]);
        assert(s.take(1).drop_first() =~= Seq::<u64>::empty());
        assert(s.take(0) =~= Seq::<u64>::empty());
    } else {
        assert(s.take(n + 1).drop_first() =~= s.drop_first().take(n));
        assert(s.take(n).drop_first() =~= s.drop_first().take(n - 1));
        lemma_take_sum_step(s.drop_first(), n - 1);
    }
}

fn histogram_block(name: &str, bounds: &Vec<u64>, counts: &Vec<u64>, sum: u64, count: u64) -> (r:
    String)
    requires
        hist_wf(
            HistView { bounds: bounds@, counts: counts@, sum: sum as int, count: count as int },
        ),
    ensures
        r@ == spec_histogram_block(
            name@,
            HistView { bounds: bounds@, counts: counts@, sum: sum as int, count: count as int },
        ),
{
    let ghost h = HistView {
        bounds: bounds@,
        counts: counts@,
        sum: sum as int,
        count: count as int,
    };
    let mut s = String::from_str("# TYPE ");
    s.append(name);
    s.append(" histogram\n");
    let ghost head = s@;
    let n = bounds.len();
    let mut cumulative: u64 = 0;
    let mut i: usize = 0;
    proof {
        assert(counts@.take(0) =~= Seq::<u64>::empty());
    }
    while i < n
        invariant
            i <= n,
            n == bounds@.len(),
            n == counts@.len(),
            hist_wf(h),
            h == (HistView {
                bounds: bounds@,
                counts: counts@,
                sum: sum as int,
                count: count as int,
            }),
            cumulative == sum_seq(counts@.take(i as int)),
            s@ == head + spec_bucket_lines(name@, h, i as int),
        decreases n - i,
    {
        proof {
            lemma_take_sum_step(counts@, i as int);
            lemma_take_sum_bounds(counts@, i as int + 1);
        }
        cumulative = cumulative + counts[i];
        let line = bucket_line(name, bounds[i], cumulative);
        s.append(line.as_str());
        proof {
            assert(head + spec_bucket_lines(name@, h, i as int) + line@ =~= head
                + spec_bucket_lines(name@, h, i + 1));
        }
        i += 1;
    }
    s.append(name);
    s.append("_bucket{le=\"+Inf\"} ");
    let c = format_u64(count);
    s.append(c.as_str());
    s.append("\n");
    s.append(name);
    s.append("_sum ");
    let v = format_u64(sum);
    s.append(v.as_str());
    s.append("\n");
    s.append(name);
    s.append("_count ");
    s.append(c.as_str());
    s.append("\n");
    proof {
        assert(s@ =~= spec_histogram_block(name@, h));
    }
    s
}

/// The full exposition text of a metric snapshot: the three counters in a
/// fixed order — attempted, succeeded, failed — then the latency histogram.
pub open spec fn spec_exposition(m: MetricView) -> Seq<char> {
    spec_counter_block("aggregator_incoming_trades_total"@, m.attempted) + spec_counter_block(
        "aggregator_incoming_trades_success"@,
        m.succeeded,
    ) + spec_counter_block("aggregator_incoming_trades_failed"@, m.failed) + spec_histogram_block(
        "aggregator_incoming_trade_rpc_duration_nanoseconds"@,
        m.latency,
    )
}

/// Renders the snapshot of a metric set, exactly as `spec_exposition`
/// gives it. The snapshot is read-only: scraping changes no counter.
pub fn render_metrics(m: &MetricSet) -> (r: String)
    requires
        metrics_wf(m@),
    ensures
        r@ == spec_exposition(m@),
{
    let mut s = counter_block("aggregator_incoming_trades_total", m.attempted());
    let b = counter_block("aggregator_incoming_trades_success", m.succeeded());
    s.append(b.as_str());
    let b = counter_block("aggregator_incoming_trades_failed", m.failed());
    s.append(b.as_str());
    let h = m.latency();
    let b = histogram_block(
        "aggregator_incoming_trade_rpc_duration_nanoseconds",
        h.bounds(),
        h.counts(),
        h.sum(),
        h.count(),
    );
    s.append(b.as_str());
    proof {
        assert(s@ =~= spec_exposition(m@));
    }
    s
}

} // verus!
