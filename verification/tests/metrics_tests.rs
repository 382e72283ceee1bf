use market_pipeline::config::Config;
use market_pipeline::metrics::{
    AdapterEventLatencyMs, AdapterEventsTotal, LatencyStats, Metrics, StrategySignalsTotal,
};

#[test]
fn counters_start_at_zero_and_count_per_label() {
    let mut counts = AdapterEventsTotal::new();
    assert_eq!(counts.get("Polymarket", "heartbeat"), 0);
    counts.increment("Polymarket", "heartbeat");
    counts.increment("Polymarket", "heartbeat");
    counts.increment("Polymarket", "price_change");
    assert_eq!(counts.get("Polymarket", "heartbeat"), 2);
    assert_eq!(counts.get("Polymarket", "price_change"), 1);
    assert_eq!(counts.get("Kalshi", "heartbeat"), 0);
}

#[test]
fn signal_counters_count_per_label() {
    let mut counts = StrategySignalsTotal::new();
    counts.increment("arbitrage", "Polymarket");
    counts.increment("arbitrage", "Polymarket");
    assert_eq!(counts.get("arbitrage", "Polymarket"), 2);
    assert_eq!(counts.get("arbitrage", "Kalshi"), 0);
}

#[test]
fn latency_average_is_the_floor_of_the_mean() {
    let mut lat = AdapterEventLatencyMs::new();
    assert_eq!(lat.avg_ms("Polymarket", "heartbeat"), None);
    lat.observe("Polymarket", "heartbeat", 10);
    lat.observe("Polymarket", "heartbeat", 15);
    assert_eq!(lat.avg_ms("Polymarket", "heartbeat"), Some(12));
    lat.observe("Polymarket", "heartbeat", 2);
    assert_eq!(lat.avg_ms("Polymarket", "heartbeat"), Some(9));
    assert_eq!(lat.avg_ms("Polymarket", "price_change"), None);
}

#[test]
fn latency_stats_compare_by_fields() {
    let a = LatencyStats { count: 2, total_ms: 25 };
    let b = LatencyStats { count: 2, total_ms: 25 };
    assert_eq!(a, b);
}

#[test]
fn bundled_metrics_forward_to_both_series() {
    let mut metrics = Metrics::new();
    metrics.increment_counter("Polymarket", "heartbeat");
    metrics.observe_latency("Polymarket", "heartbeat", 8);
    assert_eq!(metrics.adapter_events_total.get("Polymarket", "heartbeat"), 1);
    assert_eq!(metrics.adapter_event_latency_ms.avg_ms("Polymarket", "heartbeat"), Some(8));
}

#[test]
fn config_holds_the_log_filter() {
    let config = Config::new("debug".to_string());
    assert_eq!(config.log_level, "debug");
}
