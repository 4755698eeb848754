//! Figures for monitoring, error messages and decimal text.

use web3_rpc_pool::endpoint::{EndpointStats, RpcEndpoint};
use web3_rpc_pool::metrics::EndpointMetrics;
use web3_rpc_pool::text::decimal_string;
use web3_rpc_pool::{RpcPoolError, RpcPoolMetrics};

fn figures(name: &str, total: u64, successful: u64, latency_ms: u64, healthy: bool) -> EndpointMetrics {
    let endpoint = RpcEndpoint::new(&format!("https://{name}.example.com")).with_name(name);
    let mut stats = EndpointStats::new(&endpoint);
    stats.total_requests = total;
    stats.successful_requests = successful;
    stats.failed_requests = total - successful;
    stats.avg_latency_micros = latency_ms as u128 * 1000;
    stats.is_healthy = healthy;
    EndpointMetrics::from_stats(&stats)
}

fn pool_figures(endpoints: Vec<EndpointMetrics>) -> RpcPoolMetrics {
    RpcPoolMetrics { total_requests: 0, failovers: 0, current_endpoint: "none".into(), endpoints }
}

#[test]
fn endpoint_figures_follow_the_statistics() {
    let endpoint = RpcEndpoint::new("https://rpc.example.com").with_name("Measured");
    let mut stats = EndpointStats::new(&endpoint);
    stats.record_success(100);
    stats.record_success(200);
    stats.record_failure("boom".into(), 5);
    let m = EndpointMetrics::from_stats(&stats);
    assert_eq!(m.url, "https://rpc.example.com");
    assert_eq!(m.name, "Measured");
    assert_eq!(m.total_requests, 3);
    assert_eq!(m.successful_requests, 2);
    assert_eq!(m.failed_requests, 1);
    assert_eq!(m.avg_latency_micros, 110_000);
    assert_eq!(m.last_latency_ms, 200);
    assert!(m.is_healthy);
    assert_eq!(m.consecutive_errors, 1);
    assert_eq!(m.success_rate, 66_666);
}

#[test]
fn total_success_rate() {
    assert_eq!(pool_figures(vec![]).total_success_rate(), 100_000);
    assert_eq!(pool_figures(vec![figures("a", 0, 0, 0, true)]).total_success_rate(), 100_000);
    let m = pool_figures(vec![
        figures("a", 10, 10, 20, true),
        figures("b", 10, 5, 30, true),
        figures("c", 20, 0, 0, false),
    ]);
    // 15 of 40
    assert_eq!(m.total_success_rate(), 37_500);
    assert_eq!(m.total_success_rate() as f64 / 1000.0, 37.5);
    let m = pool_figures(vec![figures("a", 3, 1, 20, true)]);
    assert_eq!(m.total_success_rate(), 33_333);
}

#[test]
fn healthy_count() {
    assert_eq!(pool_figures(vec![]).healthy_count(), 0);
    let m = pool_figures(vec![
        figures("a", 1, 1, 20, true),
        figures("b", 1, 0, 30, false),
        figures("c", 0, 0, 0, true),
    ]);
    assert_eq!(m.healthy_count(), 2);
}

#[test]
fn average_latency_over_healthy_endpoints_with_observations() {
    assert_eq!(pool_figures(vec![]).avg_latency(), 0);
    let m = pool_figures(vec![
        figures("a", 1, 1, 100, true),
        figures("b", 1, 1, 201, true),
        figures("down", 1, 0, 900, false),
        figures("fresh", 0, 0, 0, true),
    ]);
    // (100 + 201) / 2 = 150.5 ms
    assert_eq!(m.avg_latency(), 150_500);
    assert_eq!(m.avg_latency() as f64 / 1000.0, 150.5);
    let none = pool_figures(vec![figures("down", 1, 0, 900, false), figures("fresh", 0, 0, 0, true)]);
    assert_eq!(none.avg_latency(), 0);
    let thirds = pool_figures(vec![
        figures("a", 1, 1, 1, true),
        figures("b", 1, 1, 1, true),
        figures("c", 1, 1, 2, true),
    ]);
    assert_eq!(thirds.avg_latency(), 1_333);
}

#[test]
fn error_messages() {
    assert_eq!(
        RpcPoolError::AllEndpointsFailed("boom".into()).message(),
        "All RPC endpoints failed: boom"
    );
    assert_eq!(RpcPoolError::NoEndpointsConfigured.message(), "No RPC endpoints configured");
    assert_eq!(RpcPoolError::NoHealthyEndpoints.message(), "No healthy RPC endpoints available");
    assert_eq!(
        RpcPoolError::ClientCreationFailed("tls".into()).message(),
        "Failed to create RPC client: tls"
    );
    assert_eq!(RpcPoolError::TransportError("reset".into()).message(), "RPC transport error: reset");
    assert_eq!(RpcPoolError::InvalidUrl("empty host".into()).message(), "Invalid endpoint URL: empty host");
    assert_eq!(RpcPoolError::Timeout(1500).message(), "Request timeout after 1500ms");
    assert_eq!(RpcPoolError::Timeout(0).message(), "Request timeout after 0ms");
    assert_eq!(
        RpcPoolError::Timeout(u64::MAX).message(),
        "Request timeout after 18446744073709551615ms"
    );
    assert_eq!(RpcPoolError::PoolShutdown.message(), "RPC pool has been shut down");
    assert_eq!(
        RpcPoolError::NoWebSocketEndpoints.message(),
        "No WebSocket-capable endpoints configured"
    );
    assert_eq!(RpcPoolError::WebSocketError("closed".into()).message(), "WebSocket error: closed");
}

#[test]
fn decimal_text() {
    assert_eq!(decimal_string(0), "0");
    assert_eq!(decimal_string(7), "7");
    assert_eq!(decimal_string(10), "10");
    assert_eq!(decimal_string(1234567890), "1234567890");
    assert_eq!(decimal_string(u128::MAX), u128::MAX.to_string());
}
