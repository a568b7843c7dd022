use aggregator::handler::finish_push;
use aggregator::metrics::MetricSet;
use aggregator::render::{format_u64, render_metrics};

#[test]
fn format_u64_renders_decimal_digits() {
    assert_eq!(format_u64(0).as_str(), "0");
    assert_eq!(format_u64(7).as_str(), "7");
    assert_eq!(format_u64(10).as_str(), "10");
    assert_eq!(format_u64(12345).as_str(), "12345");
    assert_eq!(format_u64(1000000).as_str(), "1000000");
    assert_eq!(format_u64(u64::MAX).as_str(), "18446744073709551615");
}

#[test]
fn exposition_of_a_fresh_metric_set() {
    let m = MetricSet::new();
    let text = render_metrics(&m);
    let expected = "\
# TYPE aggregator_incoming_trades_total counter
aggregator_incoming_trades_total 0
# TYPE aggregator_incoming_trades_success counter
aggregator_incoming_trades_success 0
# TYPE aggregator_incoming_trades_failed counter
aggregator_incoming_trades_failed 0
# TYPE aggregator_incoming_trade_rpc_duration_nanoseconds histogram
aggregator_incoming_trade_rpc_duration_nanoseconds_bucket{le=\"1000000\"} 0
aggregator_incoming_trade_rpc_duration_nanoseconds_bucket{le=\"10000000\"} 0
aggregator_incoming_trade_rpc_duration_nanoseconds_bucket{le=\"100000000\"} 0
aggregator_incoming_trade_rpc_duration_nanoseconds_bucket{le=\"1000000000\"} 0
aggregator_incoming_trade_rpc_duration_nanoseconds_bucket{le=\"10000000000\"} 0
aggregator_incoming_trade_rpc_duration_nanoseconds_bucket{le=\"+Inf\"} 0
aggregator_incoming_trade_rpc_duration_nanoseconds_sum 0
aggregator_incoming_trade_rpc_duration_nanoseconds_count 0
";
    assert_eq!(text.as_str(), expected);
}

#[test]
fn exposition_after_one_successful_call() {
    let mut m = MetricSet::new();
    m.begin_request();
    let reply = finish_push(&mut m, Ok(()), 5_000_000);
    assert!(reply.is_ok());
    let text = render_metrics(&m);
    let expected = "\
# TYPE aggregator_incoming_trades_total counter
aggregator_incoming_trades_total 1
# TYPE aggregator_incoming_trades_success counter
aggregator_incoming_trades_success 1
# TYPE aggregator_incoming_trades_failed counter
aggregator_incoming_trades_failed 0
# TYPE aggregator_incoming_trade_rpc_duration_nanoseconds histogram
aggregator_incoming_trade_rpc_duration_nanoseconds_bucket{le=\"1000000\"} 0
aggregator_incoming_trade_rpc_duration_nanoseconds_bucket{le=\"10000000\"} 1
aggregator_incoming_trade_rpc_duration_nanoseconds_bucket{le=\"100000000\"} 1
aggregator_incoming_trade_rpc_duration_nanoseconds_bucket{le=\"1000000000\"} 1
aggregator_incoming_trade_rpc_duration_nanoseconds_bucket{le=\"10000000000\"} 1
aggregator_incoming_trade_rpc_duration_nanoseconds_bucket{le=\"+Inf\"} 1
aggregator_incoming_trade_rpc_duration_nanoseconds_sum 5000000
aggregator_incoming_trade_rpc_duration_nanoseconds_count 1
";
    assert_eq!(text.as_str(), expected);
}

#[test]
fn observation_above_every_bound_lands_only_in_the_infinite_bucket() {
    let mut m = MetricSet::new();
    m.begin_request();
    let _ = finish_push(&mut m, Ok(()), 25_000_000_000);
    let text = render_metrics(&m);
    assert!(text
        .as_str()
        .contains("aggregator_incoming_trade_rpc_duration_nanoseconds_bucket{le=\"10000000000\"} 0"));
    assert!(text
        .as_str()
        .contains("aggregator_incoming_trade_rpc_duration_nanoseconds_bucket{le=\"+Inf\"} 1"));
}

#[test]
fn a_boundary_observation_lands_in_its_own_bucket() {
    let mut m = MetricSet::new();
    m.begin_request();
    let _ = finish_push(&mut m, Ok(()), 1_000_000);
    let text = render_metrics(&m);
    assert!(text
        .as_str()
        .contains("aggregator_incoming_trade_rpc_duration_nanoseconds_bucket{le=\"1000000\"} 1"));
}

#[test]
fn scraping_changes_no_counter() {
    let mut m = MetricSet::new();
    m.begin_request();
    let _ = finish_push(&mut m, Ok(()), 42);
    let first = render_metrics(&m);
    let second = render_metrics(&m);
    assert_eq!(first.as_str(), second.as_str());
    assert_eq!(m.attempted(), 1);
}
