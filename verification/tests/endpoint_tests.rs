//! Endpoint descriptors, grading and statistics.

use std::time::Duration;
use web3_rpc_pool::endpoint::{
    backoff_elapsed, backoff_nanos, default_name, default_priority, EndpointCapabilities,
    EndpointGrade, EndpointStats, RpcEndpoint,
};

#[test]
fn test_endpoint_builder() {
    let endpoint = RpcEndpoint::new("https://rpc.example.com")
        .with_name("Example RPC")
        .with_priority(50)
        .with_chain_id(1);

    assert_eq!(endpoint.url, "https://rpc.example.com");
    assert_eq!(endpoint.name, "Example RPC");
    assert_eq!(endpoint.priority, 50);
    assert_eq!(endpoint.chain_id, 1);
}

#[test]
fn test_ema_latency() {
    let endpoint = RpcEndpoint::new("https://rpc.example.com");
    let mut stats = EndpointStats::new(&endpoint);

    // First request sets the baseline
    stats.update_latency(100);
    assert_eq!(stats.avg_latency_micros as f64 / 1000.0, 100.0);

    // Second request uses EMA
    stats.update_latency(200);
    // 100 * 0.9 + 200 * 0.1 = 90 + 20 = 110
    assert!((stats.avg_latency_micros as f64 / 1000.0 - 110.0).abs() < 0.001);
}

#[test]
fn test_consecutive_errors() {
    let endpoint = RpcEndpoint::new("https://rpc.example.com");
    let mut stats = EndpointStats::new(&endpoint);

    // First two errors don't mark unhealthy
    assert!(!stats.record_failure("error 1".into(), 3));
    assert!(!stats.record_failure("error 2".into(), 3));
    assert!(stats.is_healthy);

    // Third error marks unhealthy
    assert!(stats.record_failure("error 3".into(), 3));
    assert!(!stats.is_healthy);

    // Success resets
    stats.record_success(100);
    assert!(stats.is_healthy);
    assert_eq!(stats.consecutive_errors, 0);
}

#[test]
fn test_endpoint_capabilities_default() {
    let caps = EndpointCapabilities::default();
    assert_eq!(caps.grade(), EndpointGrade::D);
    assert_eq!(caps.priority_adjustment(), 0); // unknown = no adjustment
}

#[test]
fn test_grade_a() {
    let caps = EndpointCapabilities {
        supports_eth_get_logs: Some(true),
        max_batch_size: Some(100),
        max_block_range: Some(10_000),
        ..Default::default()
    };
    assert_eq!(caps.grade(), EndpointGrade::A);
    assert_eq!(caps.priority_adjustment(), -20);
}

#[test]
fn test_grade_a_unlimited() {
    let caps = EndpointCapabilities {
        supports_eth_get_logs: Some(true),
        max_batch_size: Some(0),  // unlimited
        max_block_range: Some(0), // unlimited
        ..Default::default()
    };
    assert_eq!(caps.grade(), EndpointGrade::A);
}

#[test]
fn test_grade_b() {
    let caps = EndpointCapabilities {
        supports_eth_get_logs: Some(true),
        max_batch_size: Some(50),
        max_block_range: Some(5_000),
        ..Default::default()
    };
    assert_eq!(caps.grade(), EndpointGrade::B);
    assert_eq!(caps.priority_adjustment(), -10);
}

#[test]
fn test_grade_c() {
    let caps = EndpointCapabilities {
        supports_eth_get_logs: Some(true),
        max_batch_size: Some(5),
        max_block_range: Some(100),
        ..Default::default()
    };
    assert_eq!(caps.grade(), EndpointGrade::C);
    assert_eq!(caps.priority_adjustment(), 0);
}

#[test]
fn endpoint_test_grade_d_no_logs() {
    let caps = EndpointCapabilities {
        supports_eth_get_logs: Some(false),
        max_batch_size: Some(100),
        max_block_range: Some(10_000),
        ..Default::default()
    };
    assert_eq!(caps.grade(), EndpointGrade::D);
    assert_eq!(caps.priority_adjustment(), 10);
}

#[test]
fn test_grade_ordering() {
    assert!(EndpointGrade::F < EndpointGrade::D);
    assert!(EndpointGrade::D < EndpointGrade::C);
    assert!(EndpointGrade::C < EndpointGrade::B);
    assert!(EndpointGrade::B < EndpointGrade::A);
}

#[test]
fn test_grade_display() {
    assert_eq!(EndpointGrade::A.to_string(), "A");
    assert_eq!(EndpointGrade::F.to_string(), "F");
}

#[test]
fn test_with_capabilities_builder() {
    let caps = EndpointCapabilities {
        supports_eth_get_logs: Some(true),
        max_batch_size: Some(100),
        max_block_range: Some(10_000),
        ..Default::default()
    };
    let endpoint = RpcEndpoint::new("https://rpc.example.com").with_capabilities(caps);
    assert_eq!(endpoint.capabilities.grade(), EndpointGrade::A);
}

#[test]
fn test_with_ws_url_sets_websocket_capability() {
    let endpoint =
        RpcEndpoint::new("https://rpc.example.com").with_ws_url("wss://rpc.example.com");
    assert!(endpoint.capabilities.supports_websocket);
}

#[test]
fn test_exponential_backoff() {
    let endpoint = RpcEndpoint::new("https://rpc.example.com");
    let mut stats = EndpointStats::new(&endpoint);
    let base_delay = Duration::from_secs(5);

    // Initial delay should be base delay (5s)
    assert_eq!(stats.current_retry_delay(base_delay).as_secs(), 5);

    // After first recovery attempt: 5 * 2^1 = 10s
    stats.increment_recovery_attempts();
    assert_eq!(stats.current_retry_delay(base_delay).as_secs(), 10);

    // After second: 5 * 2^2 = 20s
    stats.increment_recovery_attempts();
    assert_eq!(stats.current_retry_delay(base_delay).as_secs(), 20);

    // After third: 5 * 2^3 = 40s
    stats.increment_recovery_attempts();
    assert_eq!(stats.current_retry_delay(base_delay).as_secs(), 40);

    // Should cap at 300s (5 minutes)
    for _ in 0..10 {
        stats.increment_recovery_attempts();
    }
    assert_eq!(stats.current_retry_delay(base_delay).as_secs(), 300);

    // Recovery resets backoff
    stats.mark_recovered();
    assert_eq!(stats.recovery_attempts, 0);
    assert_eq!(stats.current_retry_delay(base_delay).as_secs(), 5);
}

#[test]
fn grade_ranks_follow_the_order() {
    assert_eq!(EndpointGrade::F.rank(), 0);
    assert_eq!(EndpointGrade::D.rank(), 1);
    assert_eq!(EndpointGrade::C.rank(), 2);
    assert_eq!(EndpointGrade::B.rank(), 3);
    assert_eq!(EndpointGrade::A.rank(), 4);
    assert_eq!(EndpointGrade::B.to_string(), "B");
    assert_eq!(EndpointGrade::C.to_string(), "C");
    assert_eq!(EndpointGrade::D.to_string(), "D");
}

#[test]
fn grade_boundaries() {
    let graded = |batch: u32, range: u64| {
        EndpointCapabilities {
            supports_eth_get_logs: Some(true),
            max_batch_size: Some(batch),
            max_block_range: Some(range),
            ..Default::default()
        }
        .grade()
    };
    assert_eq!(graded(100, 10_000), EndpointGrade::A);
    assert_eq!(graded(99, 10_000), EndpointGrade::B);
    assert_eq!(graded(100, 9_999), EndpointGrade::B);
    assert_eq!(graded(10, 1_000), EndpointGrade::B);
    assert_eq!(graded(9, 1_000), EndpointGrade::C);
    assert_eq!(graded(10, 999), EndpointGrade::C);
    assert_eq!(graded(0, 999), EndpointGrade::C);
    assert_eq!(graded(1, 0), EndpointGrade::C);
    assert_eq!(graded(0, 0), EndpointGrade::A);
}

#[test]
fn grade_with_unknown_limits_reads_them_as_unlimited() {
    let caps = EndpointCapabilities { supports_eth_get_logs: Some(true), ..Default::default() };
    assert_eq!(caps.grade(), EndpointGrade::A);
    assert_eq!(caps.priority_adjustment(), -20);

    let only_batch = EndpointCapabilities { max_batch_size: Some(500), ..Default::default() };
    assert_eq!(only_batch.grade(), EndpointGrade::D);
    assert_eq!(only_batch.priority_adjustment(), 10);

    let only_trace = EndpointCapabilities {
        supports_debug_trace: Some(true),
        rate_limit_rps: Some(5),
        ..Default::default()
    };
    assert_eq!(only_trace.grade(), EndpointGrade::D);
    assert_eq!(only_trace.priority_adjustment(), 0);
}

#[test]
fn grade_is_never_f() {
    for logs in [None, Some(false), Some(true)] {
        for batch in [None, Some(0), Some(1), Some(10), Some(100)] {
            for range in [None, Some(0), Some(999), Some(1_000), Some(10_000)] {
                let caps = EndpointCapabilities {
                    supports_eth_get_logs: logs,
                    max_batch_size: batch,
                    max_block_range: range,
                    ..Default::default()
                };
                let grade = caps.grade();
                assert_ne!(grade, EndpointGrade::F);
                let expected = match grade {
                    EndpointGrade::A => -20,
                    EndpointGrade::B => -10,
                    EndpointGrade::C => 0,
                    EndpointGrade::D => {
                        if logs.is_some() || batch.is_some() || range.is_some() {
                            10
                        } else {
                            0
                        }
                    }
                    EndpointGrade::F => 50,
                };
                assert_eq!(caps.priority_adjustment(), expected);
            }
        }
    }
}

#[test]
fn new_endpoint_defaults() {
    let endpoint = RpcEndpoint::new("https://rpc.example.com");
    assert_eq!(endpoint.url, "https://rpc.example.com");
    assert_eq!(endpoint.name, "https://rpc.example.com");
    assert_eq!(endpoint.ws_url, None);
    assert_eq!(endpoint.priority, 100);
    assert_eq!(endpoint.chain_id, 0);
    assert_eq!(endpoint.capabilities.grade(), EndpointGrade::D);
    assert!(!endpoint.capabilities.supports_websocket);
    assert_eq!(default_name(), "unnamed");
    assert_eq!(default_priority(), 100);
}

#[test]
fn builders_leave_other_fields_alone() {
    let endpoint = RpcEndpoint::new("https://rpc.example.com")
        .with_priority(7)
        .with_chain_id(42161)
        .with_ws_url("wss://rpc.example.com")
        .with_name("Named");
    assert_eq!(endpoint.url, "https://rpc.example.com");
    assert_eq!(endpoint.priority, 7);
    assert_eq!(endpoint.chain_id, 42161);
    assert_eq!(endpoint.ws_url.as_deref(), Some("wss://rpc.example.com"));
    assert_eq!(endpoint.name, "Named");

    let copy = endpoint.duplicate();
    assert_eq!(copy.url, endpoint.url);
    assert_eq!(copy.name, endpoint.name);
    assert_eq!(copy.ws_url, endpoint.ws_url);
    assert_eq!(copy.priority, 7);
    assert_eq!(copy.chain_id, 42161);
    assert!(copy.capabilities.supports_websocket);
}

#[test]
fn capabilities_set_after_ws_url_replace_the_flag() {
    let endpoint = RpcEndpoint::new("https://rpc.example.com")
        .with_ws_url("wss://rpc.example.com")
        .with_capabilities(EndpointCapabilities::default());
    assert!(endpoint.ws_url.is_some());
    assert!(!endpoint.capabilities.supports_websocket);
}

#[test]
fn fresh_stats() {
    let endpoint = RpcEndpoint::new("https://rpc.example.com").with_name("Fresh");
    let stats = EndpointStats::new(&endpoint);
    assert_eq!(stats.url, "https://rpc.example.com");
    assert_eq!(stats.name, "Fresh");
    assert_eq!(stats.total_requests, 0);
    assert_eq!(stats.successful_requests, 0);
    assert_eq!(stats.failed_requests, 0);
    assert_eq!(stats.avg_latency_micros, 0);
    assert_eq!(stats.last_latency_ms, 0);
    assert!(stats.last_error.is_none());
    assert!(stats.last_error_time.is_none());
    assert!(stats.is_healthy);
    assert_eq!(stats.consecutive_errors, 0);
    assert_eq!(stats.recovery_attempts, 0);
    assert_eq!(stats.success_rate(), 100_000);
    assert!(stats.can_retry(Duration::from_secs(3600)));
}

#[test]
fn ema_after_two_observations() {
    let endpoint = RpcEndpoint::new("https://rpc.example.com");
    let mut stats = EndpointStats::new(&endpoint);
    stats.update_latency(100);
    stats.update_latency(200);
    assert!((stats.avg_latency_micros as f64 / 1000.0 - 110.0).abs() < 1e-9);
    assert_eq!(stats.avg_latency_micros, 110_000);
    assert_eq!(stats.last_latency_ms, 200);
}

#[test]
fn ema_rounds_down_and_restarts_from_zero() {
    let endpoint = RpcEndpoint::new("https://rpc.example.com");
    let mut stats = EndpointStats::new(&endpoint);
    stats.avg_latency_micros = 1_005;
    stats.update_latency(0);
    // (1005 * 9 + 0) / 10 = 904.5, rounded down
    assert_eq!(stats.avg_latency_micros, 904);

    stats.avg_latency_micros = 1;
    stats.update_latency(0);
    assert_eq!(stats.avg_latency_micros, 0);
    // An average of zero means "no observation yet": the next one is taken as it is.
    stats.update_latency(70);
    assert_eq!(stats.avg_latency_micros, 70_000);
}

#[test]
fn ema_stays_within_the_bounds_of_the_observations() {
    let endpoint = RpcEndpoint::new("https://rpc.example.com");
    let mut stats = EndpointStats::new(&endpoint);
    let observations = [40u64, 55, 40, 90, 61, 47, 90, 90, 40, 73];
    for round in 0..50 {
        for x in observations {
            stats.update_latency(x);
            assert!(stats.avg_latency_micros >= 40_000, "round {round}");
            assert!(stats.avg_latency_micros <= 90_000, "round {round}");
        }
    }
}

#[test]
fn ema_takes_the_largest_observation() {
    let endpoint = RpcEndpoint::new("https://rpc.example.com");
    let mut stats = EndpointStats::new(&endpoint);
    stats.update_latency(u64::MAX);
    assert_eq!(stats.avg_latency_micros, u64::MAX as u128 * 1000);
    stats.update_latency(u64::MAX);
    assert_eq!(stats.avg_latency_micros, u64::MAX as u128 * 1000);
    assert_eq!(stats.last_latency_ms, u64::MAX);
}

#[test]
fn counters_add_up_at_every_step() {
    let endpoint = RpcEndpoint::new("https://rpc.example.com");
    let mut stats = EndpointStats::new(&endpoint);
    for step in 0..200u64 {
        match step % 5 {
            0 | 3 => stats.record_success(step),
            1 | 2 => {
                stats.record_failure(format!("error {step}"), 2);
            }
            _ => stats.mark_recovered(),
        }
        assert_eq!(stats.successful_requests + stats.failed_requests, stats.total_requests);
        assert!(stats.consecutive_errors as u64 <= stats.total_requests);
    }
    assert_eq!(stats.total_requests, 160);
    assert_eq!(stats.successful_requests, 80);
    assert_eq!(stats.failed_requests, 80);
}

#[test]
fn counters_stop_together_at_the_largest_value() {
    let endpoint = RpcEndpoint::new("https://rpc.example.com");
    let mut stats = EndpointStats::new(&endpoint);
    stats.total_requests = u64::MAX;
    stats.successful_requests = u64::MAX - 4;
    stats.failed_requests = 4;
    stats.record_success(10);
    assert_eq!(stats.total_requests, u64::MAX);
    assert_eq!(stats.successful_requests, u64::MAX - 4);
    assert!(!stats.record_failure("late".into(), 2));
    assert_eq!(stats.failed_requests, 4);
    assert_eq!(stats.consecutive_errors, 1);
    assert_eq!(stats.successful_requests + stats.failed_requests, stats.total_requests);

    stats.consecutive_errors = u32::MAX;
    assert!(stats.record_failure("later".into(), u32::MAX));
    assert_eq!(stats.consecutive_errors, u32::MAX);
    assert!(!stats.is_healthy);
}

#[test]
fn failure_never_heals_and_success_always_does() {
    let endpoint = RpcEndpoint::new("https://rpc.example.com");
    let mut stats = EndpointStats::new(&endpoint);
    assert!(stats.record_failure("down".into(), 1));
    assert!(!stats.is_healthy);
    // A limit that is far away does not bring the endpoint back.
    assert!(!stats.record_failure("still down".into(), 100));
    assert!(!stats.is_healthy);
    assert_eq!(stats.consecutive_errors, 2);
    assert_eq!(stats.last_error.as_deref(), Some("still down"));
    assert!(stats.last_error_time.is_some());

    stats.recovery_attempts = 4;
    stats.record_success(12);
    assert!(stats.is_healthy);
    assert_eq!(stats.consecutive_errors, 0);
    assert_eq!(stats.recovery_attempts, 4);
    assert_eq!(stats.last_latency_ms, 12);
}

#[test]
fn a_limit_of_zero_quarantines_at_once() {
    let endpoint = RpcEndpoint::new("https://rpc.example.com");
    let mut stats = EndpointStats::new(&endpoint);
    assert!(stats.record_failure("first".into(), 0));
    assert!(!stats.is_healthy);
}

#[test]
fn failure_at_a_given_time() {
    let endpoint = RpcEndpoint::new("https://rpc.example.com");
    let mut stats = EndpointStats::new(&endpoint);
    let at = std::time::Instant::now();
    assert!(!stats.record_failure_at("one".into(), 2, at));
    assert_eq!(stats.last_error_time, Some(at));
    assert!(stats.record_failure_at("two".into(), 2, at));
    assert_eq!(stats.failed_requests, 2);
    assert_eq!(stats.total_requests, 2);
}

#[test]
fn success_rate_in_thousandths_of_a_percent() {
    let endpoint = RpcEndpoint::new("https://rpc.example.com");
    let mut stats = EndpointStats::new(&endpoint);
    stats.record_success(1);
    stats.record_failure("x".into(), 10);
    stats.record_failure("y".into(), 10);
    // one of three: 33.333...%
    assert_eq!(stats.success_rate(), 33_333);
    stats.record_success(1);
    assert_eq!(stats.success_rate(), 50_000);
    assert_eq!(stats.success_rate() as f64 / 1000.0, 50.0);
}

#[test]
fn snapshot_is_an_exact_copy() {
    let endpoint = RpcEndpoint::new("https://rpc.example.com").with_name("Copy");
    let mut stats = EndpointStats::new(&endpoint);
    stats.record_success(30);
    stats.record_failure("boom".into(), 1);
    stats.increment_recovery_attempts();
    let copy = stats.snapshot();
    assert_eq!(copy.url, stats.url);
    assert_eq!(copy.name, stats.name);
    assert_eq!(copy.total_requests, 2);
    assert_eq!(copy.successful_requests, 1);
    assert_eq!(copy.failed_requests, 1);
    assert_eq!(copy.avg_latency_micros, 30_000);
    assert_eq!(copy.last_latency_ms, 30);
    assert_eq!(copy.last_error.as_deref(), Some("boom"));
    assert_eq!(copy.last_error_time, stats.last_error_time);
    assert!(!copy.is_healthy);
    assert_eq!(copy.consecutive_errors, 1);
    assert_eq!(copy.recovery_attempts, 1);
}

const SECOND: u128 = 1_000_000_000;

fn backoff_whole_secs(base_secs: u64, attempts: u32) -> u64 {
    let nanos = backoff_nanos(base_secs as u128 * SECOND, attempts) as u128;
    assert_eq!(nanos % SECOND, 0);
    (nanos / SECOND) as u64
}

#[test]
fn backoff_schedule() {
    assert_eq!(backoff_whole_secs(5, 0), 5);
    assert_eq!(backoff_whole_secs(5, 1), 10);
    assert_eq!(backoff_whole_secs(5, 2), 20);
    assert_eq!(backoff_whole_secs(5, 3), 40);
    assert_eq!(backoff_whole_secs(5, 5), 160);
    assert_eq!(backoff_whole_secs(5, 6), 300);
    assert_eq!(backoff_whole_secs(5, 10), 300);
    assert_eq!(backoff_whole_secs(5, 11), 300);
    assert_eq!(backoff_whole_secs(5, u32::MAX), 300);
    assert_eq!(backoff_whole_secs(0, 10), 0);
    assert_eq!(backoff_whole_secs(0, u32::MAX), 0);
    assert_eq!(backoff_whole_secs(1, 8), 256);
    assert_eq!(backoff_whole_secs(1, 9), 300);
    assert_eq!(backoff_whole_secs(300, 0), 300);
    assert_eq!(backoff_whole_secs(301, 0), 300);
    assert_eq!(backoff_whole_secs(u64::MAX, 0), 300);
    assert_eq!(backoff_whole_secs(u64::MAX, 10), 300);
    assert_eq!(backoff_nanos(u128::MAX, 0), 300_000_000_000);
    assert_eq!(backoff_nanos(u128::MAX, 10), 300_000_000_000);
}

#[test]
fn backoff_keeps_fractions_of_a_second() {
    assert_eq!(backoff_nanos(1_500_000_000, 0), 1_500_000_000);
    assert_eq!(backoff_nanos(1_500_000_000, 1), 3_000_000_000);
    assert_eq!(backoff_nanos(1, 0), 1);
    assert_eq!(backoff_nanos(1, 10), 1024);
    assert_eq!(backoff_nanos(250_000_000, 3), 2_000_000_000);
    assert_eq!(backoff_nanos(299_999_999_999, 0), 299_999_999_999);
    assert_eq!(backoff_nanos(299_999_999_999, 1), 300_000_000_000);
}

#[test]
fn backoff_never_shrinks_and_never_exceeds_the_cap() {
    for base in [0u128, 1, 2, 5, 7, 60, 299, 300, 301, 10_000, 1_500_000_000, 299 * SECOND] {
        for scale in [1u128, SECOND] {
            let base = base * scale;
            let mut previous = 0;
            for attempts in 0..=12u32 {
                let delay = backoff_nanos(base, attempts);
                assert!(delay <= 300_000_000_000);
                assert!(delay >= previous);
                previous = delay;
            }
            if base <= 300 * SECOND {
                assert_eq!(backoff_nanos(base, 0) as u128, base);
            }
        }
    }
}

#[test]
fn backoff_elapsed_compares_with_the_schedule() {
    assert!(!backoff_elapsed(10 * SECOND - 1, 5 * SECOND, 1));
    assert!(backoff_elapsed(10 * SECOND, 5 * SECOND, 1));
    assert!(backoff_elapsed(11 * SECOND, 5 * SECOND, 1));
    assert!(!backoff_elapsed(300 * SECOND - 1, 5 * SECOND, 10));
    assert!(backoff_elapsed(300 * SECOND, 5 * SECOND, 10));
    assert!(backoff_elapsed(0, 0, 3));
    assert!(!backoff_elapsed(1_499_999_999, 1_500_000_000, 0));
    assert!(backoff_elapsed(1_500_000_000, 1_500_000_000, 0));
}

#[test]
fn can_retry_waits_for_the_backoff() {
    let endpoint = RpcEndpoint::new("https://rpc.example.com");
    let mut stats = EndpointStats::new(&endpoint);
    stats.record_failure("down".into(), 1);
    // The error is a moment old: a delay of an hour has not run out, one of zero has.
    assert!(!stats.can_retry(Duration::from_secs(3600)));
    assert!(stats.can_retry(Duration::from_secs(0)));
    assert!(!stats.can_retry(Duration::from_millis(900_000)));
    assert!(stats.can_retry(Duration::from_nanos(1)));
}

#[test]
fn retry_delay_is_the_base_delay_before_any_recovery_attempt() {
    let endpoint = RpcEndpoint::new("https://rpc.example.com");
    let mut stats = EndpointStats::new(&endpoint);
    for base in [
        Duration::from_secs(5),
        Duration::from_millis(1500),
        Duration::from_millis(900),
        Duration::from_nanos(1),
        Duration::from_secs(300),
        Duration::ZERO,
    ] {
        assert_eq!(stats.current_retry_delay(base), base);
    }
    assert_eq!(stats.current_retry_delay(Duration::from_secs(301)), Duration::from_secs(300));
    assert_eq!(stats.current_retry_delay(Duration::MAX), Duration::from_secs(300));
    stats.increment_recovery_attempts();
    assert_eq!(stats.current_retry_delay(Duration::from_millis(2_900)), Duration::from_millis(5_800));
    assert_eq!(stats.current_retry_delay(Duration::from_millis(900)), Duration::from_millis(1_800));
}

#[test]
fn recovery_attempts_stop_at_ten() {
    let endpoint = RpcEndpoint::new("https://rpc.example.com");
    let mut stats = EndpointStats::new(&endpoint);
    for expected in 1..=10u32 {
        stats.increment_recovery_attempts();
        assert_eq!(stats.recovery_attempts, expected);
    }
    stats.increment_recovery_attempts();
    assert_eq!(stats.recovery_attempts, 10);
    stats.record_failure("x".into(), 1);
    stats.mark_recovered();
    assert!(stats.is_healthy);
    assert_eq!(stats.consecutive_errors, 0);
    assert_eq!(stats.recovery_attempts, 0);
    assert_eq!(stats.total_requests, 1);
}
