//! The pool: construction, bookkeeping and the failover loop.

use std::cell::RefCell;
use std::time::Duration;
use web3_rpc_pool::endpoint::RpcEndpoint;
use web3_rpc_pool::pool::{
    invalid_url, latency_from_millis, truncate_error_message, HealthSummary, RequestStep,
};
use web3_rpc_pool::strategies::{
    FailoverStrategy, LatencyBasedStrategy, RoundRobinStrategy, SelectionStrategy,
};
use web3_rpc_pool::{RpcPool, RpcPoolConfig, RpcPoolError};

fn create_test_config() -> RpcPoolConfig<Box<FailoverStrategy>> {
    RpcPoolConfig::new()
        .with_endpoints(vec![
            RpcEndpoint::new("https://rpc1.example.com"),
            RpcEndpoint::new("https://rpc2.example.com"),
        ])
        .with_strategy(Box::new(FailoverStrategy))
}

fn abc_pool(max_consecutive_errors: u32) -> RpcPool<Box<FailoverStrategy>> {
    RpcPool::new(
        RpcPoolConfig::new()
            .with_endpoints(vec![
                RpcEndpoint::new("https://a.example.com").with_name("A").with_priority(10),
                RpcEndpoint::new("https://b.example.com").with_name("B").with_priority(50),
                RpcEndpoint::new("https://c.example.com").with_name("C").with_priority(100),
            ])
            .with_strategy(Box::new(FailoverStrategy))
            .with_max_consecutive_errors(max_consecutive_errors),
    )
    .unwrap()
}

#[test]
fn test_pool_creation() {
    let config = create_test_config();
    let pool = RpcPool::new(config);
    assert!(pool.is_ok());
}

#[test]
fn test_empty_endpoints() {
    let config = RpcPoolConfig::new().with_strategy(Box::new(FailoverStrategy));

    let pool = RpcPool::new(config);
    assert!(matches!(pool, Err(RpcPoolError::NoEndpointsConfigured)));
}

#[test]
fn test_get_urls() {
    let config = RpcPoolConfig::new()
        .with_endpoints(vec![
            RpcEndpoint::new("https://rpc1.example.com").with_priority(10),
            RpcEndpoint::new("https://rpc2.example.com").with_priority(50),
        ])
        .with_strategy(Box::new(FailoverStrategy));

    let mut pool = RpcPool::new(config).unwrap();

    // Should return highest priority (lowest number) endpoint
    assert_eq!(pool.get_current_url(), Some("https://rpc1.example.com".to_string()));

    // Should return all URLs
    let all = pool.get_all_urls();
    assert_eq!(all.len(), 2);
}

#[test]
fn test_truncate_error_message() {
    let short_msg = "Short error";
    assert_eq!(truncate_error_message(short_msg), short_msg);

    let long_msg = "x".repeat(1000);
    let truncated = truncate_error_message(&long_msg);
    assert!(truncated.len() < long_msg.len());
    assert!(truncated.ends_with("...(truncated)"));
}

#[test]
fn test_config_builder() {
    let config = RpcPoolConfig::new()
        .with_request_timeout(Duration::from_secs(10))
        .with_health_check_timeout(Duration::from_secs(5))
        .with_health_check_interval(Duration::from_secs(30))
        .with_max_consecutive_errors(5)
        .with_retry_delay(Duration::from_secs(10));

    assert_eq!(config.request_timeout, Duration::from_secs(10));
    assert_eq!(config.health_check_timeout, Duration::from_secs(5));
    assert_eq!(config.health_check_interval, Duration::from_secs(30));
    assert_eq!(config.max_consecutive_errors, 5);
    assert_eq!(config.retry_delay, Duration::from_secs(10));
}

#[test]
fn test_health_summary() {
    let config = create_test_config();
    let mut pool = RpcPool::new(config).unwrap();

    // Initially all endpoints should be healthy
    let summary = pool.health_summary();
    assert_eq!(summary.healthy, 2);
    assert_eq!(summary.unhealthy, 0);
    assert_eq!(summary.total, 2);
    assert!(!summary.all_unhealthy());
    assert_eq!(summary.health_percentage() as f64 / 1000.0, 100.0);

    // Mark one as unhealthy
    pool.mark_unhealthy("https://rpc1.example.com");
    let summary = pool.health_summary();
    assert_eq!(summary.healthy, 1);
    assert_eq!(summary.unhealthy, 1);
    assert!(!summary.all_unhealthy());
    assert_eq!(summary.health_percentage() as f64 / 1000.0, 50.0);

    // Mark another as unhealthy
    pool.mark_unhealthy("https://rpc2.example.com");
    let summary = pool.health_summary();
    assert_eq!(summary.healthy, 0);
    assert_eq!(summary.unhealthy, 2);
    assert!(summary.all_unhealthy());
    assert_eq!(summary.health_percentage() as f64 / 1000.0, 0.0);
}

#[test]
fn default_configuration() {
    let config = RpcPoolConfig::default();
    assert!(config.endpoints.is_empty());
    assert_eq!(config.health_check_interval, Duration::from_secs(60));
    assert_eq!(config.max_consecutive_errors, 3);
    assert_eq!(config.retry_delay, Duration::from_secs(5));
    assert_eq!(config.request_timeout, Duration::from_secs(30));
    assert_eq!(config.health_check_timeout, Duration::from_secs(10));

    let pool = RpcPool::new(
        create_test_config()
            .with_request_timeout(Duration::from_secs(7))
            .with_health_check_timeout(Duration::from_secs(3))
            .with_health_check_interval(Duration::from_secs(11)),
    )
    .unwrap();
    assert_eq!(pool.request_timeout(), Duration::from_secs(7));
    assert_eq!(pool.health_check_timeout(), Duration::from_secs(3));
    assert_eq!(pool.health_check_interval(), Duration::from_secs(11));
    assert_eq!(pool.endpoint_count(), 2);
    assert!(!pool.is_shutdown());
}

#[test]
fn health_summary_of_nothing() {
    let none = HealthSummary { healthy: 0, unhealthy: 0, total: 0 };
    assert!(!none.all_unhealthy());
    assert_eq!(none.health_percentage(), 0);
    let third = HealthSummary { healthy: 1, unhealthy: 2, total: 3 };
    assert_eq!(third.health_percentage(), 33_333);
}

#[test]
fn truncation_boundaries() {
    let exactly = "a".repeat(512);
    assert_eq!(truncate_error_message(&exactly), exactly);
    let one_more = "a".repeat(513);
    assert_eq!(truncate_error_message(&one_more), format!("{}...(truncated)", "a".repeat(512)));
    assert_eq!(truncate_error_message(""), "");
    assert_eq!(truncate_error_message(&"x".repeat(1000)).len(), 512 + 14);
}

#[test]
fn truncation_never_splits_a_character() {
    // 511 bytes, then a character of two bytes that straddles byte 512, then more.
    let msg = format!("{}é{}", "a".repeat(511), "b".repeat(20));
    assert_eq!(truncate_error_message(&msg), format!("{}...(truncated)", "a".repeat(511)));

    // 510 bytes and a character of two bytes end exactly at byte 512.
    let msg = format!("{}é{}", "a".repeat(510), "b".repeat(20));
    assert_eq!(truncate_error_message(&msg), format!("{}é...(truncated)", "a".repeat(510)));

    // Characters of four bytes: 128 of them fill 512 bytes.
    let msg = "𝄞".repeat(200);
    assert_eq!(truncate_error_message(&msg), format!("{}...(truncated)", "𝄞".repeat(128)));
    let msg = format!("a{}", "𝄞".repeat(200));
    assert_eq!(truncate_error_message(&msg), format!("a{}...(truncated)", "𝄞".repeat(127)));

    // 512 bytes in all, however many characters: unchanged.
    let msg = "é".repeat(256);
    assert_eq!(truncate_error_message(&msg), msg);
}

#[test]
fn construction_removes_duplicates_and_sorts_stably() {
    let mut pool = RpcPool::new(
        RpcPoolConfig::new().with_endpoints(vec![
            RpcEndpoint::new("https://c.example.com").with_name("C").with_priority(100),
            RpcEndpoint::new("https://a.example.com").with_name("A").with_priority(10),
            RpcEndpoint::new("https://b1.example.com").with_name("B1").with_priority(50),
            RpcEndpoint::new("https://a.example.com").with_name("A again").with_priority(1),
            RpcEndpoint::new("https://b2.example.com").with_name("B2").with_priority(50),
            RpcEndpoint::new("https://b1.example.com").with_name("B1 again").with_priority(50),
            RpcEndpoint::new("https://z.example.com").with_name("Z").with_priority(0),
        ]),
    )
    .unwrap();
    assert_eq!(
        pool.get_all_urls(),
        vec![
            "https://z.example.com",
            "https://a.example.com",
            "https://b1.example.com",
            "https://b2.example.com",
            "https://c.example.com"
        ]
    );
    assert_eq!(pool.endpoint_count(), 5);
    let metrics = pool.metrics();
    let names: Vec<&str> = metrics.endpoints.iter().map(|e| e.name.as_str()).collect();
    assert_eq!(names, vec!["Z", "A", "B1", "B2", "C"]);
    assert_eq!(metrics.current_endpoint, "Z");
    let summary = pool.health_summary();
    assert_eq!((summary.healthy, summary.unhealthy, summary.total), (5, 0, 5));
}

#[test]
fn fresh_pool_statistics() {
    let pool = abc_pool(3);
    let stats = pool.endpoint_stats("https://b.example.com").unwrap();
    assert_eq!(stats.url, "https://b.example.com");
    assert_eq!(stats.name, "B");
    assert_eq!(stats.total_requests, 0);
    assert!(stats.is_healthy);
    assert!(pool.endpoint_stats("https://unknown.example.com").is_none());
    let snapshot = pool.collect_stats_snapshot();
    assert_eq!(snapshot.len(), 3);
    assert!(snapshot.get("https://a.example.com").unwrap().is_healthy);
    assert!(snapshot.get("https://unknown.example.com").is_none());
}

#[test]
fn mark_unhealthy_on_an_unknown_url_changes_nothing() {
    let mut pool = abc_pool(3);
    pool.mark_unhealthy("https://unknown.example.com");
    let summary = pool.health_summary();
    assert_eq!((summary.healthy, summary.unhealthy, summary.total), (3, 0, 3));

    pool.mark_unhealthy("https://a.example.com");
    let a = pool.endpoint_stats("https://a.example.com").unwrap();
    assert!(!a.is_healthy);
    assert!(a.last_error_time.is_some());
    assert_eq!(a.total_requests, 0);
    assert_eq!(pool.get_current_url().as_deref(), Some("https://b.example.com"));
}

#[test]
fn failover_ordering() {
    let mut pool = abc_pool(3);
    let calls = RefCell::new(Vec::new());
    let result = pool.execute_with_url(|url: String| -> Result<&str, String> {
        calls.borrow_mut().push(url);
        Ok("x")
    });
    assert_eq!(result.unwrap(), "x");
    assert_eq!(*calls.borrow(), vec!["https://a.example.com"]);
    let metrics = pool.metrics();
    assert_eq!(metrics.total_requests, 1);
    assert_eq!(metrics.failovers, 0);
    assert_eq!(metrics.current_endpoint, "A");
    let a = pool.endpoint_stats("https://a.example.com").unwrap();
    assert_eq!(a.total_requests, 1);
    assert_eq!(a.successful_requests, 1);
}

#[test]
fn single_retry_on_failure() {
    let mut pool = abc_pool(3);
    let calls = RefCell::new(Vec::new());
    let result = pool.execute_with_url(|url: String| -> Result<&str, String> {
        calls.borrow_mut().push(url.clone());
        if url == "https://a.example.com" {
            Err("boom".to_string())
        } else {
            Ok("ok")
        }
    });
    assert_eq!(result.unwrap(), "ok");
    assert_eq!(*calls.borrow(), vec!["https://a.example.com", "https://b.example.com"]);
    let metrics = pool.metrics();
    assert_eq!(metrics.total_requests, 1);
    assert_eq!(metrics.failovers, 1);
    let a = pool.endpoint_stats("https://a.example.com").unwrap();
    assert_eq!(a.failed_requests, 1);
    assert_eq!(a.consecutive_errors, 1);
    assert_eq!(a.last_error.as_deref(), Some("boom"));
    assert!(a.is_healthy);
    let b = pool.endpoint_stats("https://b.example.com").unwrap();
    assert_eq!(b.successful_requests, 1);
    let c = pool.endpoint_stats("https://c.example.com").unwrap();
    assert_eq!(c.total_requests, 0);
}

#[test]
fn quarantine_after_consecutive_failures() {
    let mut pool = abc_pool(3);
    for _ in 0..3 {
        let result = pool.execute_with_url(|url: String| -> Result<u8, String> {
            if url == "https://a.example.com" {
                Err("down".to_string())
            } else {
                Ok(1)
            }
        });
        assert!(result.is_ok());
    }
    let a = pool.endpoint_stats("https://a.example.com").unwrap();
    assert!(!a.is_healthy);
    assert_eq!(a.consecutive_errors, 3);

    let calls = RefCell::new(Vec::new());
    let result = pool.execute_with_url(|url: String| -> Result<u8, String> {
        calls.borrow_mut().push(url);
        Ok(2)
    });
    assert_eq!(result.unwrap(), 2);
    assert_eq!(*calls.borrow(), vec!["https://b.example.com"]);
    assert_eq!(pool.metrics().failovers, 3);
    assert_eq!(pool.metrics().total_requests, 4);
}

#[test]
fn a_single_endpoint_that_always_fails() {
    let mut pool = RpcPool::new(
        RpcPoolConfig::new().with_endpoints(vec![RpcEndpoint::new("https://only.example.com")]),
    )
    .unwrap();
    for round in 1..=4u64 {
        let calls = RefCell::new(0u32);
        let result = pool.execute_with_url(|_url: String| -> Result<(), String> {
            *calls.borrow_mut() += 1;
            Err(format!("failure {round}"))
        });
        match result {
            Err(RpcPoolError::AllEndpointsFailed(msg)) => {
                assert_eq!(msg, format!("failure {round}"))
            }
            other => panic!("unexpected: {other:?}"),
        }
        assert_eq!(*calls.borrow(), 1);
        assert_eq!(pool.metrics().failovers, round);
    }
    let only = pool.endpoint_stats("https://only.example.com").unwrap();
    assert!(!only.is_healthy);
    assert_eq!(only.failed_requests, 4);
}

#[test]
fn unhealthy_endpoints_are_still_tried_once_each() {
    let mut pool = abc_pool(1);
    pool.mark_unhealthy("https://a.example.com");
    pool.mark_unhealthy("https://b.example.com");
    pool.mark_unhealthy("https://c.example.com");
    let calls = RefCell::new(Vec::new());
    let result = pool.execute_with_url(|url: String| -> Result<(), String> {
        calls.borrow_mut().push(url.clone());
        Err(format!("no luck on {url}"))
    });
    match result {
        Err(RpcPoolError::AllEndpointsFailed(msg)) => {
            assert_eq!(msg, "no luck on https://c.example.com")
        }
        other => panic!("unexpected: {other:?}"),
    }
    assert_eq!(
        *calls.borrow(),
        vec!["https://a.example.com", "https://b.example.com", "https://c.example.com"]
    );
    assert_eq!(pool.metrics().failovers, 3);

    // A success on a quarantined endpoint brings it back.
    let result = pool.execute_with_url(|_url: String| -> Result<u8, String> { Ok(9) });
    assert_eq!(result.unwrap(), 9);
    assert!(pool.endpoint_stats("https://a.example.com").unwrap().is_healthy);
    assert!(!pool.endpoint_stats("https://b.example.com").unwrap().is_healthy);
}

#[test]
fn no_endpoint_is_tried_twice_within_a_request() {
    let endpoints: Vec<RpcEndpoint> = (0..7)
        .map(|i| RpcEndpoint::new(&format!("https://rpc{i}.example.com")).with_priority(i))
        .collect();
    let mut pool = RpcPool::new(
        RpcPoolConfig::new()
            .with_endpoints(endpoints)
            .with_strategy(Box::new(RoundRobinStrategy::new())),
    )
    .unwrap();
    for _ in 0..5 {
        let calls = RefCell::new(Vec::new());
        let result = pool.execute_with_url(|url: String| -> Result<(), String> {
            calls.borrow_mut().push(url);
            Err("nope".to_string())
        });
        assert!(matches!(result, Err(RpcPoolError::AllEndpointsFailed(_))));
        let mut seen = calls.borrow().clone();
        assert_eq!(seen.len(), 7);
        seen.sort();
        seen.dedup();
        assert_eq!(seen.len(), 7);
    }
}

#[test]
fn shutdown_refuses_requests_without_invoking_the_operation() {
    let mut pool = abc_pool(3);
    let _ = pool.execute_with_url(|_url: String| -> Result<(), String> { Ok(()) });
    pool.shutdown();
    pool.shutdown();
    assert!(pool.is_shutdown());
    let calls = RefCell::new(0u32);
    for _ in 0..3 {
        let result = pool.execute_with_url(|_url: String| -> Result<(), String> {
            *calls.borrow_mut() += 1;
            Ok(())
        });
        assert!(matches!(result, Err(RpcPoolError::PoolShutdown)));
    }
    assert_eq!(*calls.borrow(), 0);
    assert_eq!(pool.metrics().total_requests, 1);
    assert!(matches!(pool.begin_request(), Err(RpcPoolError::PoolShutdown)));
    let report = pool.check_health(|_url| -> bool { panic!("no probe after shutdown") });
    assert_eq!(report.checked, 0);
}

#[test]
fn long_errors_are_stored_truncated() {
    let mut pool = abc_pool(3);
    let result = pool.execute_with_url(|_url: String| -> Result<(), String> {
        Err("e".repeat(600))
    });
    let expected = format!("{}...(truncated)", "e".repeat(512));
    match result {
        Err(RpcPoolError::AllEndpointsFailed(msg)) => assert_eq!(msg, expected),
        other => panic!("unexpected: {other:?}"),
    }
    let a = pool.endpoint_stats("https://a.example.com").unwrap();
    assert_eq!(a.last_error, Some(expected));
}

#[test]
fn execute_hands_out_parsed_urls() {
    let mut pool = abc_pool(3);
    let result = pool.execute(|url: url::Url| -> Result<String, String> {
        Ok(format!("{}|{}", url.scheme(), url.host_str().unwrap()))
    });
    assert_eq!(result.unwrap(), "https|a.example.com");
}

#[test]
fn execute_counts_an_unparsable_url_as_a_failure() {
    let mut pool = RpcPool::new(
        RpcPoolConfig::new().with_endpoints(vec![
            RpcEndpoint::new("not a url").with_priority(1),
            RpcEndpoint::new("https://good.example.com").with_priority(2),
        ]),
    )
    .unwrap();
    let calls = RefCell::new(Vec::new());
    let result = pool.execute(|url: url::Url| -> Result<u8, String> {
        calls.borrow_mut().push(url.to_string());
        Ok(5)
    });
    assert_eq!(result.unwrap(), 5);
    assert_eq!(*calls.borrow(), vec!["https://good.example.com/"]);
    let bad = pool.endpoint_stats("not a url").unwrap();
    assert_eq!(bad.failed_requests, 1);
    assert_eq!(bad.last_error.as_deref(), Some("Invalid URL: relative URL without a base"));
    assert_eq!(pool.metrics().failovers, 1);
}

#[test]
fn invalid_url_error() {
    let e = url::Url::parse("not a url").unwrap_err();
    match invalid_url(e) {
        RpcPoolError::InvalidUrl(msg) => assert_eq!(msg, "relative URL without a base"),
        other => panic!("unexpected: {other:?}"),
    }
    let e = url::Url::parse("https://").unwrap_err();
    assert_eq!(invalid_url(e).message(), "Invalid endpoint URL: empty host");
}

#[test]
fn request_steps_by_hand() {
    let mut pool = abc_pool(2);
    let mut req = pool.begin_request().unwrap();
    assert_eq!(req.id(), 1);
    assert_eq!(req.attempt_count(), 0);

    let first = match pool.next_attempt(&mut req) {
        RequestStep::Attempt(e) => e,
        RequestStep::Finished(e) => panic!("unexpected: {e:?}"),
    };
    assert_eq!(first.url, "https://a.example.com");
    assert_eq!(req.attempt_count(), 1);
    assert!(!pool.record_attempt_failure(&mut req, &first.url, "first failure"));

    let second = match pool.next_attempt(&mut req) {
        RequestStep::Attempt(e) => e,
        RequestStep::Finished(e) => panic!("unexpected: {e:?}"),
    };
    assert_eq!(second.url, "https://b.example.com");
    assert!(!pool.record_attempt_timeout(&mut req, &second.url));
    let b = pool.endpoint_stats("https://b.example.com").unwrap();
    assert_eq!(b.last_error.as_deref(), Some("Request timeout after 30000ms"));

    let third = match pool.next_attempt(&mut req) {
        RequestStep::Attempt(e) => e,
        RequestStep::Finished(e) => panic!("unexpected: {e:?}"),
    };
    assert_eq!(third.url, "https://c.example.com");
    pool.record_attempt_success(&third.url, 42);
    let c = pool.endpoint_stats("https://c.example.com").unwrap();
    assert_eq!(c.successful_requests, 1);
    assert_eq!(c.avg_latency_micros, 42_000);
    assert_eq!(c.last_latency_ms, 42);
    assert_eq!(req.attempt_count(), 3);

    // Nothing is left for this request.
    match pool.next_attempt(&mut req) {
        RequestStep::Finished(RpcPoolError::AllEndpointsFailed(msg)) => {
            assert_eq!(msg, "Request timeout after 30000ms")
        }
        _ => panic!("the request should be over"),
    }
    assert_eq!(pool.metrics().failovers, 2);
    assert_eq!(pool.metrics().total_requests, 1);

    // The next request has the next number; a second failure quarantines A.
    let mut req = pool.begin_request().unwrap();
    assert_eq!(req.id(), 2);
    let first = match pool.next_attempt(&mut req) {
        RequestStep::Attempt(e) => e,
        RequestStep::Finished(e) => panic!("unexpected: {e:?}"),
    };
    assert_eq!(first.url, "https://a.example.com");
    assert!(pool.record_attempt_failure(&mut req, &first.url, "second failure"));
    assert!(!pool.endpoint_stats("https://a.example.com").unwrap().is_healthy);

    // Shutdown ends a request that is under way.
    pool.shutdown();
    assert!(matches!(
        pool.next_attempt(&mut req),
        RequestStep::Finished(RpcPoolError::PoolShutdown)
    ));
}

#[test]
fn a_request_without_attempts_ends_with_unknown_error() {
    let mut pool = abc_pool(3);
    let mut req = pool.begin_request().unwrap();
    for _ in 0..3 {
        assert!(matches!(pool.next_attempt(&mut req), RequestStep::Attempt(_)));
    }
    match pool.next_attempt(&mut req) {
        RequestStep::Finished(RpcPoolError::AllEndpointsFailed(msg)) => {
            assert_eq!(msg, "Unknown error")
        }
        _ => panic!("the request should be over"),
    }
}

#[test]
fn recording_on_an_unknown_url() {
    let mut pool = abc_pool(3);
    let mut req = pool.begin_request().unwrap();
    pool.record_attempt_success("https://unknown.example.com", 5);
    assert!(!pool.record_attempt_failure(&mut req, "https://unknown.example.com", "lost"));
    assert!(!pool.record_probe_success("https://unknown.example.com"));
    pool.record_probe_failure("https://unknown.example.com");
    assert!(pool.probe_due("https://unknown.example.com"));
    assert_eq!(pool.metrics().failovers, 1);
    let summary = pool.health_summary();
    assert_eq!((summary.healthy, summary.unhealthy), (3, 0));
}

#[test]
fn latency_from_clock_millis() {
    assert_eq!(latency_from_millis(0), 0);
    assert_eq!(latency_from_millis(1_234), 1_234);
    assert_eq!(latency_from_millis(u64::MAX as u128), u64::MAX);
    assert_eq!(latency_from_millis(u64::MAX as u128 + 1), u64::MAX);
    assert_eq!(latency_from_millis(u128::MAX), u64::MAX);
}

#[test]
fn health_probes() {
    let mut pool = RpcPool::new(
        RpcPoolConfig::new()
            .with_endpoints(vec![
                RpcEndpoint::new("https://a.example.com").with_priority(10),
                RpcEndpoint::new("https://b.example.com").with_priority(50),
                RpcEndpoint::new("https://c.example.com").with_priority(100),
            ])
            .with_retry_delay(Duration::from_secs(0)),
    )
    .unwrap();

    // Nothing is unhealthy: nothing is probed.
    let report = pool.check_health(|_url| -> bool { panic!("nothing to probe") });
    assert_eq!((report.checked, report.recovered), (0, 0));
    assert!(!pool.probe_due("https://a.example.com"));

    pool.mark_unhealthy("https://a.example.com");
    pool.mark_unhealthy("https://c.example.com");
    assert!(pool.probe_due("https://a.example.com"));
    assert!(!pool.probe_due("https://b.example.com"));

    let probed = RefCell::new(Vec::new());
    let report = pool.check_health(|url: url::Url| -> bool {
        probed.borrow_mut().push(url.to_string());
        url.host_str() == Some("a.example.com")
    });
    assert_eq!((report.checked, report.recovered), (2, 1));
    assert_eq!(*probed.borrow(), vec!["https://a.example.com/", "https://c.example.com/"]);
    let a = pool.endpoint_stats("https://a.example.com").unwrap();
    assert!(a.is_healthy);
    assert_eq!(a.recovery_attempts, 0);
    let c = pool.endpoint_stats("https://c.example.com").unwrap();
    assert!(!c.is_healthy);
    assert_eq!(c.recovery_attempts, 1);

    for _ in 0..12 {
        pool.check_health(|_url| false);
    }
    let c = pool.endpoint_stats("https://c.example.com").unwrap();
    assert_eq!(c.recovery_attempts, 10);
    assert_eq!(c.total_requests, 0);

    assert!(pool.record_probe_success("https://c.example.com"));
    let c = pool.endpoint_stats("https://c.example.com").unwrap();
    assert!(c.is_healthy);
    assert_eq!(c.recovery_attempts, 0);
}

#[test]
fn health_probe_waits_for_the_backoff() {
    let mut pool = RpcPool::new(
        RpcPoolConfig::new()
            .with_endpoints(vec![RpcEndpoint::new("https://a.example.com")])
            .with_retry_delay(Duration::from_secs(3600)),
    )
    .unwrap();
    pool.mark_unhealthy("https://a.example.com");
    assert!(!pool.probe_due("https://a.example.com"));
    let report = pool.check_health(|_url| -> bool { panic!("the backoff has not run out") });
    assert_eq!(report.checked, 0);
    assert!(!pool.endpoint_stats("https://a.example.com").unwrap().is_healthy);
}

#[test]
fn health_probe_skips_an_unparsable_url() {
    let mut pool = RpcPool::new(
        RpcPoolConfig::new()
            .with_endpoints(vec![RpcEndpoint::new("not a url")])
            .with_retry_delay(Duration::from_secs(0)),
    )
    .unwrap();
    pool.mark_unhealthy("not a url");
    let report = pool.check_health(|_url| -> bool { panic!("nothing parses") });
    assert_eq!((report.checked, report.recovered), (1, 0));
    let stats = pool.endpoint_stats("not a url").unwrap();
    assert!(!stats.is_healthy);
    assert_eq!(stats.recovery_attempts, 0);
}

#[test]
fn a_strategy_chosen_at_run_time() {
    let by_name = |name: &str| -> Box<dyn SelectionStrategy> {
        if name == "latency" {
            Box::new(LatencyBasedStrategy)
        } else {
            Box::new(FailoverStrategy)
        }
    };
    let endpoints = || {
        vec![
            RpcEndpoint::new("https://a.example.com").with_priority(10),
            RpcEndpoint::new("https://b.example.com").with_priority(50),
        ]
    };
    let mut pool: RpcPool = RpcPool::new(
        RpcPoolConfig::new().with_endpoints(endpoints()).with_strategy(by_name("latency")),
    )
    .unwrap();
    // A slow answer from A, a fast one from B: latency-based selection moves to B.
    pool.record_attempt_success("https://a.example.com", 900);
    pool.record_attempt_success("https://b.example.com", 5);
    assert_eq!(pool.get_current_url().as_deref(), Some("https://b.example.com"));

    let mut pool: RpcPool = RpcPool::new(
        RpcPoolConfig::new().with_endpoints(endpoints()).with_strategy(by_name("failover")),
    )
    .unwrap();
    pool.record_attempt_success("https://a.example.com", 900);
    pool.record_attempt_success("https://b.example.com", 5);
    assert_eq!(pool.get_current_url().as_deref(), Some("https://a.example.com"));
}

#[test]
fn the_first_attempt_goes_to_the_smallest_priority_among_the_healthy() {
    let mut pool = RpcPool::new(RpcPoolConfig::new().with_endpoints(vec![
        RpcEndpoint::new("https://late.example.com").with_priority(70),
        RpcEndpoint::new("https://down.example.com").with_priority(1),
        RpcEndpoint::new("https://tie-first.example.com").with_priority(20),
        RpcEndpoint::new("https://tie-second.example.com").with_priority(20),
    ]))
    .unwrap();
    pool.mark_unhealthy("https://down.example.com");
    let calls = RefCell::new(Vec::new());
    let result = pool.execute_with_url(|url: String| -> Result<(), String> {
        calls.borrow_mut().push(url);
        Err("no".to_string())
    });
    assert!(result.is_err());
    // Healthy endpoints in priority order, equal priorities as given; the
    // unhealthy one last.
    assert_eq!(
        *calls.borrow(),
        vec![
            "https://tie-first.example.com",
            "https://tie-second.example.com",
            "https://late.example.com",
            "https://down.example.com"
        ]
    );
}

#[test]
fn test_shutdown() {
    let config = create_test_config();
    let mut pool = RpcPool::new(config).unwrap();

    assert!(!pool.is_shutdown());

    // Shutdown
    pool.shutdown();

    assert!(pool.is_shutdown());
}

#[test]
fn a_failed_request_carries_the_error_of_its_last_attempt() {
    let mut pool = abc_pool(3);
    let calls = RefCell::new(Vec::new());
    let result = pool.execute_with_url(|url: String| -> Result<(), String> {
        calls.borrow_mut().push(url.clone());
        Err(format!("{url} is down"))
    });
    assert_eq!(
        *calls.borrow(),
        vec!["https://a.example.com", "https://b.example.com", "https://c.example.com"]
    );
    match result {
        Err(RpcPoolError::AllEndpointsFailed(msg)) => {
            assert_eq!(msg, "https://c.example.com is down")
        }
        other => panic!("unexpected: {other:?}"),
    }
    let b = pool.endpoint_stats("https://b.example.com").unwrap();
    assert_eq!(b.last_error.as_deref(), Some("https://b.example.com is down"));
}

#[test]
fn the_endpoint_that_answers_is_the_last_one_tried() {
    let mut pool = abc_pool(3);
    let calls = RefCell::new(Vec::new());
    let result = pool.execute_with_url(|url: String| -> Result<String, String> {
        calls.borrow_mut().push(url.clone());
        if url == "https://a.example.com" {
            Err("a is down".to_string())
        } else {
            Ok(url)
        }
    });
    assert_eq!(result.unwrap(), "https://b.example.com");
    assert_eq!(*calls.borrow(), vec!["https://a.example.com", "https://b.example.com"]);
    assert_eq!(pool.endpoint_stats("https://a.example.com").unwrap().failed_requests, 1);
    assert_eq!(pool.endpoint_stats("https://b.example.com").unwrap().successful_requests, 1);
    assert_eq!(pool.endpoint_stats("https://c.example.com").unwrap().total_requests, 0);
    assert_eq!(pool.metrics().failovers, 1);
}
