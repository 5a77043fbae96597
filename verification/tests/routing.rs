use lb::config::{
    BACKEND_TIMEOUT_SECS, CAPACITY_THRESHOLD_DEN, CAPACITY_THRESHOLD_NUM, FALLBACK_URL,
    LISTEN_PORT, METRICS_TIMEOUT_SECS, METRICS_URL, POLL_INTERVAL_SECS, PRIMARY_URL,
};
use lb::routing::{backend_url, select_backend, RoutingDecision};
use lb::state::{MetricsState, PollOutcome, Ratio};

fn state(used: u64, capacity: u64, primary_online: bool) -> MetricsState {
    MetricsState { utilization_ratio: Ratio { used, capacity }, primary_online }
}

#[test]
fn configuration_has_the_fixed_values() {
    assert_eq!(CAPACITY_THRESHOLD_NUM, 7);
    assert_eq!(CAPACITY_THRESHOLD_DEN, 10);
    assert_eq!(LISTEN_PORT, 8080);
    assert_eq!(POLL_INTERVAL_SECS, 10);
    assert_eq!(METRICS_TIMEOUT_SECS, 10);
    assert_eq!(BACKEND_TIMEOUT_SECS, 500);
    assert_eq!(METRICS_URL, "http://0.0.0.0:8002/metrics");
    assert_eq!(PRIMARY_URL, "http://192.168.1.18:8000/v2/models/ensemble/generate");
    assert_eq!(FALLBACK_URL, "http://192.168.1.13:8003/v2/models/tensorrt_llm_bls/generate");
}

#[test]
fn threshold_itself_routes_to_fallback() {
    assert_eq!(select_backend(&state(7, 10, true)), RoutingDecision::Fallback);
    assert_eq!(select_backend(&state(70, 100, true)), RoutingDecision::Fallback);
    assert_eq!(select_backend(&state(4200, 6000, true)), RoutingDecision::Fallback);
}

#[test]
fn just_below_the_threshold_routes_to_primary() {
    assert_eq!(select_backend(&state(69999, 100000, true)), RoutingDecision::Primary);
    assert_eq!(select_backend(&state(4199, 6000, true)), RoutingDecision::Primary);
    assert_eq!(select_backend(&state(6, 10, true)), RoutingDecision::Primary);
}

#[test]
fn above_the_threshold_routes_to_fallback() {
    assert_eq!(select_backend(&state(70001, 100000, true)), RoutingDecision::Fallback);
    assert_eq!(select_backend(&state(9, 10, true)), RoutingDecision::Fallback);
    assert_eq!(select_backend(&state(10, 10, true)), RoutingDecision::Fallback);
    assert_eq!(select_backend(&state(25, 10, true)), RoutingDecision::Fallback);
}

#[test]
fn idle_primary_gets_the_request() {
    assert_eq!(select_backend(&state(0, 1, true)), RoutingDecision::Primary);
    assert_eq!(select_backend(&state(0, 6000, true)), RoutingDecision::Primary);
    assert_eq!(select_backend(&state(42, 100, true)), RoutingDecision::Primary);
}

#[test]
fn first_requests_go_to_primary() {
    assert_eq!(select_backend(&MetricsState::new()), RoutingDecision::Primary);
}

#[test]
fn offline_primary_routes_to_fallback_at_no_load() {
    assert_eq!(select_backend(&state(0, 1, false)), RoutingDecision::Fallback);
    assert_eq!(select_backend(&state(0, 6000, false)), RoutingDecision::Fallback);
}

#[test]
fn offline_primary_routes_to_fallback_at_any_load() {
    assert_eq!(select_backend(&state(42, 100, false)), RoutingDecision::Fallback);
    assert_eq!(select_backend(&state(9, 10, false)), RoutingDecision::Fallback);
    assert_eq!(select_backend(&state(0, 0, false)), RoutingDecision::Fallback);
}

#[test]
fn primary_without_capacity_counts_as_full() {
    assert_eq!(select_backend(&state(0, 0, true)), RoutingDecision::Fallback);
    assert_eq!(select_backend(&state(12, 0, true)), RoutingDecision::Fallback);
}

#[test]
fn stale_ratio_after_a_failure_routes_to_fallback() {
    let good = "kv{kv_cache_block_type=\"used\",model=\"tensorrt_llm\",version=\"1\"} 9\n\
                kv{kv_cache_block_type=\"max\",model=\"tensorrt_llm\",version=\"1\"} 10\n";
    let polled = MetricsState::new().after_poll(&PollOutcome::Body(good.as_bytes().to_vec()));
    assert_eq!(select_backend(&polled), RoutingDecision::Fallback);
    let failed = polled.after_poll(&PollOutcome::Failed);
    assert_eq!(failed, state(9, 10, false));
    assert_eq!(select_backend(&failed), RoutingDecision::Fallback);
}

#[test]
fn low_stale_ratio_after_a_failure_routes_to_fallback_too() {
    let polled = MetricsState::new().record(Some(Ratio { used: 1, capacity: 10 }));
    assert_eq!(select_backend(&polled), RoutingDecision::Primary);
    let failed = polled.after_poll(&PollOutcome::Failed);
    assert_eq!(failed, state(1, 10, false));
    assert_eq!(select_backend(&failed), RoutingDecision::Fallback);
}

#[test]
fn largest_counters_are_compared_without_overflow() {
    assert_eq!(select_backend(&state(u64::MAX, u64::MAX, true)), RoutingDecision::Fallback);
    assert_eq!(select_backend(&state(u64::MAX / 2, u64::MAX, true)), RoutingDecision::Primary);
    assert_eq!(select_backend(&state(0, u64::MAX, true)), RoutingDecision::Primary);
    assert_eq!(select_backend(&state(u64::MAX, 1, true)), RoutingDecision::Fallback);
}

#[test]
fn each_backend_has_its_endpoint() {
    assert_eq!(backend_url(RoutingDecision::Primary), PRIMARY_URL);
    assert_eq!(backend_url(RoutingDecision::Fallback), FALLBACK_URL);
}
