//! The tiered pool and its builder.

use std::cell::RefCell;
use std::time::Duration;
use web3_rpc_pool::endpoint::{EndpointCapabilities, RpcEndpoint};
use web3_rpc_pool::presets::{arbitrum_endpoints, chain_id, ethereum_endpoints};
use web3_rpc_pool::tiered::{adjust_priority, TierCounts, TierPresence, TierRoute};
use web3_rpc_pool::{
    EndpointTier, RequestPriority, RpcPoolError, TieredEndpoint, TieredPool, TieredPoolBuilder,
    TieredPoolConfig,
};

#[test]
fn test_tier_order_critical() {
    let pool = TieredPoolBuilder::new()
        .add_premium("https://premium.example.com", "Premium")
        .add_free("https://free.example.com", "Free")
        .build()
        .unwrap();

    let tiers = pool.tier_order(RequestPriority::Critical);
    assert_eq!(tiers[0], EndpointTier::Premium);
}

#[test]
fn test_tier_order_low() {
    let pool = TieredPoolBuilder::new()
        .add_premium("https://premium.example.com", "Premium")
        .add_free("https://free.example.com", "Free")
        .build()
        .unwrap();

    let tiers = pool.tier_order(RequestPriority::Low);
    assert_eq!(tiers.len(), 1);
    assert_eq!(tiers[0], EndpointTier::Free);
}

#[test]
fn test_builder() {
    let pool = TieredPoolBuilder::new()
        .add_premium("https://premium.example.com", "Premium")
        .add_standard("https://standard.example.com", "Standard")
        .add_free("https://free.example.com", "Free")
        .health_check_interval(Duration::from_secs(30))
        .allow_critical_fallback(true)
        .allow_low_escalation(false)
        .build();

    assert!(pool.is_ok());
    let pool = pool.unwrap();
    assert!(pool.has_tier(EndpointTier::Premium));
    assert!(pool.has_tier(EndpointTier::Standard));
    assert!(pool.has_tier(EndpointTier::Free));
}

#[test]
fn test_tier_endpoint_counts() {
    let pool = TieredPoolBuilder::new()
        .add_premium("https://premium1.example.com", "Premium1")
        .add_standard("https://standard1.example.com", "Standard1")
        .add_standard("https://standard2.example.com", "Standard2")
        .add_free("https://free1.example.com", "Free1")
        .add_free("https://free2.example.com", "Free2")
        .add_free("https://free3.example.com", "Free3")
        .build()
        .unwrap();

    let counts = pool.tier_endpoint_counts();
    assert_eq!(counts.get(&EndpointTier::Premium), Some(&1));
    assert_eq!(counts.get(&EndpointTier::Standard), Some(&2));
    assert_eq!(counts.get(&EndpointTier::Free), Some(&3));
}

#[test]
fn test_normal_priority_includes_standard_and_free() {
    // Build pool with 2 Standard and 19 Free endpoints
    let mut builder = TieredPoolBuilder::new()
        .add_standard("https://standard1.example.com", "Standard1")
        .add_standard("https://standard2.example.com", "Standard2");

    // Add 19 Free endpoints
    for i in 1..=19 {
        builder =
            builder.add_free(&format!("https://free{}.example.com", i), &format!("Free{}", i));
    }

    let pool = builder.build().unwrap();

    // Verify tier configuration
    let counts = pool.tier_endpoint_counts();
    assert_eq!(counts.get(&EndpointTier::Standard), Some(&2));
    assert_eq!(counts.get(&EndpointTier::Free), Some(&19));

    // Verify Normal priority will try both Standard and Free
    let tiers = pool.tier_order(RequestPriority::Normal);
    assert_eq!(tiers.len(), 2);
    assert_eq!(tiers[0], EndpointTier::Standard);
    assert_eq!(tiers[1], EndpointTier::Free);

    // Verify both tier pools exist
    assert!(pool.has_tier(EndpointTier::Standard));
    assert!(pool.has_tier(EndpointTier::Free));
}

#[test]
fn test_with_default_free_endpoints() {
    let pool = TieredPoolBuilder::new()
        .add_premium("https://premium.example.com", "Premium")
        .with_default_free_endpoints(chain_id::ARBITRUM_ONE)
        .build()
        .unwrap();

    // Verify Free tier was created with Arbitrum endpoints
    assert!(pool.has_tier(EndpointTier::Free));
    let counts = pool.tier_endpoint_counts();
    let free_count = counts.get(&EndpointTier::Free).unwrap_or(&0);
    assert!(*free_count > 0, "Free tier should have endpoints loaded");

    // Should match the number from presets
    let preset_count = arbitrum_endpoints().len();
    assert_eq!(*free_count, preset_count);
}

#[test]
fn test_with_default_free_endpoints_for_chains() {
    let pool = TieredPoolBuilder::new()
        .add_premium("https://premium.example.com", "Premium")
        .with_default_free_endpoints_for_chains(&[chain_id::ETHEREUM, chain_id::ARBITRUM_ONE])
        .build()
        .unwrap();

    let counts = pool.tier_endpoint_counts();
    let free_count = counts.get(&EndpointTier::Free).unwrap_or(&0);

    let expected_count = ethereum_endpoints().len() + arbitrum_endpoints().len();
    assert_eq!(*free_count, expected_count);
}

#[test]
fn defaults() {
    assert_eq!(RequestPriority::default(), RequestPriority::Normal);
    assert_eq!(EndpointTier::default(), EndpointTier::Standard);
    assert!(RequestPriority::Critical < RequestPriority::Normal);
    assert!(EndpointTier::Premium < EndpointTier::Free);

    let config = TieredPoolConfig::default();
    assert!(config.endpoints.is_empty());
    assert_eq!(config.health_check_interval, Duration::from_secs(60));
    assert_eq!(config.max_consecutive_errors, 3);
    assert_eq!(config.retry_delay, Duration::from_secs(5));
    assert!(config.allow_critical_fallback);
    assert!(!config.allow_low_escalation);
}

#[test]
fn tiered_endpoint_builders() {
    let e = TieredEndpoint::new("https://rpc.example.com", EndpointTier::Premium);
    assert_eq!(e.tier, EndpointTier::Premium);
    assert_eq!(e.rate_limit, 0);
    assert_eq!(e.endpoint.url, "https://rpc.example.com");
    assert_eq!(e.endpoint.name, "https://rpc.example.com");
    assert_eq!(e.endpoint.priority, 100);

    let e = e.with_name("Paid").with_rate_limit(25).with_priority(3).with_chain_id(10);
    assert_eq!(e.endpoint.name, "Paid");
    assert_eq!(e.rate_limit, 25);
    assert_eq!(e.endpoint.priority, 3);
    assert_eq!(e.endpoint.chain_id, 10);
    assert_eq!(e.endpoint.url, "https://rpc.example.com");
    assert_eq!(e.tier, EndpointTier::Premium);
}

#[test]
fn tier_orders() {
    let build = |fallback: bool, escalation: bool| {
        TieredPoolBuilder::new()
            .add_free("https://free.example.com", "Free")
            .allow_critical_fallback(fallback)
            .allow_low_escalation(escalation)
            .build()
            .unwrap()
    };
    let (premium, standard, free) = (EndpointTier::Premium, EndpointTier::Standard, EndpointTier::Free);
    let pool = build(true, false);
    assert_eq!(pool.tier_order(RequestPriority::Critical), vec![premium, standard, free]);
    assert_eq!(pool.tier_order(RequestPriority::Normal), vec![standard, free]);
    assert_eq!(pool.tier_order(RequestPriority::Low), vec![free]);
    let pool = build(false, true);
    assert_eq!(pool.tier_order(RequestPriority::Critical), vec![premium]);
    assert_eq!(pool.tier_order(RequestPriority::Normal), vec![standard, free]);
    assert_eq!(pool.tier_order(RequestPriority::Low), vec![free, standard, premium]);
}

#[test]
fn empty_builder_is_refused() {
    assert!(matches!(
        TieredPoolBuilder::new().build(),
        Err(RpcPoolError::NoEndpointsConfigured)
    ));
    assert!(matches!(
        TieredPoolBuilder::default().with_default_free_endpoints(99_999).build(),
        Err(RpcPoolError::NoEndpointsConfigured)
    ));
    assert!(matches!(
        TieredPool::new(TieredPoolConfig::default()),
        Err(RpcPoolError::NoEndpointsConfigured)
    ));
}

#[test]
fn available_tiers_and_counts() {
    let pool = TieredPoolBuilder::new()
        .add_free("https://free.example.com", "Free")
        .add_premium("https://premium.example.com", "Premium")
        .build()
        .unwrap();
    assert_eq!(pool.available_tiers(), vec![EndpointTier::Premium, EndpointTier::Free]);
    assert!(!pool.has_tier(EndpointTier::Standard));
    assert!(pool.get_tier_pool(EndpointTier::Standard).is_none());
    assert_eq!(pool.get_tier_pool(EndpointTier::Premium).unwrap().endpoint_count(), 1);
    let counts = pool.tier_endpoint_counts();
    assert_eq!(counts.get(&EndpointTier::Standard), None);
    assert_eq!(counts.get(&EndpointTier::Premium), Some(&1));

    let counts = TierCounts { premium: None, standard: Some(4), free: Some(0) };
    assert_eq!(counts.get(&EndpointTier::Premium), None);
    assert_eq!(counts.get(&EndpointTier::Standard), Some(&4));
    assert_eq!(counts.get(&EndpointTier::Free), Some(&0));

    let (premium, standard, free) = pool.into_pools();
    assert_eq!(premium.unwrap().get_all_urls(), vec!["https://premium.example.com"]);
    assert!(standard.is_none());
    assert_eq!(free.unwrap().get_all_urls(), vec!["https://free.example.com"]);
}

#[test]
fn usual_priorities_of_the_tiers() {
    let pool = TieredPoolBuilder::new()
        .add_premium("https://p.example.com", "P")
        .add_standard("https://s.example.com", "S")
        .add_free("https://f.example.com", "F")
        .add_endpoint(
            TieredEndpoint::new("https://early.example.com", EndpointTier::Free)
                .with_name("Early")
                .with_priority(1),
        )
        .build()
        .unwrap();
    let (premium, standard, free) = pool.into_pools();
    let mut premium = premium.unwrap();
    let mut standard = standard.unwrap();
    let mut free = free.unwrap();
    assert_eq!(premium.metrics().current_endpoint, "P");
    assert_eq!(standard.metrics().current_endpoint, "S");
    assert_eq!(free.get_all_urls(), vec!["https://early.example.com", "https://f.example.com"]);
    assert_eq!(free.metrics().endpoints[1].name, "F");
}

#[test]
fn duplicates_across_tiers_go_to_the_first_tier_added() {
    let pool = TieredPoolBuilder::new()
        .add_premium("https://shared.example.com", "Paid")
        .add_free("https://shared.example.com", "Free copy")
        .add_free("https://free.example.com", "Free")
        .add_standard("https://free.example.com", "Standard copy")
        .build()
        .unwrap();
    let counts = pool.tier_endpoint_counts();
    assert_eq!(counts.get(&EndpointTier::Premium), Some(&1));
    assert_eq!(counts.get(&EndpointTier::Standard), None);
    assert_eq!(counts.get(&EndpointTier::Free), Some(&1));
    assert!(!pool.has_tier(EndpointTier::Standard));
}

#[test]
fn free_endpoints_are_adjusted_by_grade() {
    let graded = |logs: Option<bool>, batch: u32, range: u64| EndpointCapabilities {
        supports_eth_get_logs: logs,
        max_batch_size: Some(batch),
        max_block_range: Some(range),
        ..Default::default()
    };
    let pool = TieredPoolBuilder::new()
        .add_free_endpoints(vec![
            RpcEndpoint::new("https://unknown.example.com").with_priority(100),
            RpcEndpoint::new("https://c.example.com")
                .with_priority(100)
                .with_capabilities(graded(Some(true), 5, 100)),
            RpcEndpoint::new("https://d.example.com")
                .with_priority(100)
                .with_capabilities(graded(Some(false), 100, 10_000)),
            RpcEndpoint::new("https://b.example.com")
                .with_priority(100)
                .with_capabilities(graded(Some(true), 50, 5_000)),
            RpcEndpoint::new("https://a.example.com")
                .with_priority(100)
                .with_capabilities(graded(Some(true), 100, 10_000)),
            RpcEndpoint::new("https://a-first.example.com")
                .with_priority(5)
                .with_capabilities(graded(Some(true), 0, 0)),
        ])
        .build()
        .unwrap();
    let free = pool.get_tier_pool(EndpointTier::Free).unwrap();
    // 5 - 20 stops at 0; then 80, 90, 100 (twice, in the order given), 110.
    assert_eq!(
        free.get_all_urls(),
        vec![
            "https://a-first.example.com",
            "https://a.example.com",
            "https://b.example.com",
            "https://unknown.example.com",
            "https://c.example.com",
            "https://d.example.com"
        ]
    );
}

#[test]
fn adjusted_priorities_stay_in_range() {
    assert_eq!(adjust_priority(100, -20), 80);
    assert_eq!(adjust_priority(100, -10), 90);
    assert_eq!(adjust_priority(100, 0), 100);
    assert_eq!(adjust_priority(100, 10), 110);
    assert_eq!(adjust_priority(100, 50), 150);
    assert_eq!(adjust_priority(5, -20), 0);
    assert_eq!(adjust_priority(20, -20), 0);
    assert_eq!(adjust_priority(0, -20), 0);
    assert_eq!(adjust_priority(u32::MAX, 10), u32::MAX);
    assert_eq!(adjust_priority(u32::MAX - 10, 10), u32::MAX);
    assert_eq!(adjust_priority(u32::MAX, -20), u32::MAX - 20);
    assert_eq!(adjust_priority(3_000_000_000, -10), 2_999_999_990);
}

#[test]
fn tiered_routing() {
    let mut pool = TieredPoolBuilder::new()
        .add_premium("https://p1.example.com", "P1")
        .add_free("https://f1.example.com", "F1")
        .allow_critical_fallback(true)
        .allow_low_escalation(false)
        .build()
        .unwrap();

    // Critical: P1 fails, F1 answers.
    let calls = RefCell::new(Vec::new());
    let result =
        pool.execute_with_url(RequestPriority::Critical, |url: String| -> Result<&str, String> {
            calls.borrow_mut().push(url.clone());
            if url == "https://p1.example.com" {
                Err("premium down".to_string())
            } else {
                Ok("answer")
            }
        });
    assert_eq!(result.unwrap(), "answer");
    assert_eq!(*calls.borrow(), vec!["https://p1.example.com", "https://f1.example.com"]);

    // Low: the free tier only.
    let calls = RefCell::new(Vec::new());
    let result = pool.execute_with_url(RequestPriority::Low, |url: String| -> Result<u8, String> {
        calls.borrow_mut().push(url);
        Ok(1)
    });
    assert_eq!(result.unwrap(), 1);
    assert_eq!(*calls.borrow(), vec!["https://f1.example.com"]);

    // Normal: the standard tier is absent, the free tier answers.
    let calls = RefCell::new(Vec::new());
    let result =
        pool.execute_with_url(RequestPriority::Normal, |url: String| -> Result<u8, String> {
            calls.borrow_mut().push(url);
            Ok(2)
        });
    assert_eq!(result.unwrap(), 2);
    assert_eq!(*calls.borrow(), vec!["https://f1.example.com"]);

    let premium = pool.get_tier_pool(EndpointTier::Premium).unwrap();
    assert_eq!(premium.endpoint_stats("https://p1.example.com").unwrap().total_requests, 1);
}

#[test]
fn low_priority_without_a_free_tier() {
    let mut pool = TieredPoolBuilder::new()
        .add_premium("https://p1.example.com", "P1")
        .build()
        .unwrap();
    let calls = RefCell::new(0u32);
    let result = pool.execute_with_url(RequestPriority::Low, |_url: String| -> Result<u8, String> {
        *calls.borrow_mut() += 1;
        Ok(1)
    });
    assert!(matches!(result, Err(RpcPoolError::NoEndpointsConfigured)));
    assert_eq!(*calls.borrow(), 0);
    let premium = pool.get_tier_pool(EndpointTier::Premium).unwrap();
    assert_eq!(premium.endpoint_stats("https://p1.example.com").unwrap().total_requests, 0);
}

#[test]
fn the_error_of_the_last_tier_is_returned() {
    let mut pool = TieredPoolBuilder::new()
        .add_premium("https://p1.example.com", "P1")
        .add_standard("https://s1.example.com", "S1")
        .add_free("https://f1.example.com", "F1")
        .build()
        .unwrap();
    let result =
        pool.execute_with_url(RequestPriority::Critical, |url: String| -> Result<u8, String> {
            Err(format!("failed on {url}"))
        });
    match result {
        Err(RpcPoolError::AllEndpointsFailed(msg)) => {
            assert_eq!(msg, "failed on https://f1.example.com")
        }
        other => panic!("unexpected: {other:?}"),
    }

    let mut strict = TieredPoolBuilder::new()
        .add_premium("https://p1.example.com", "P1")
        .add_free("https://f1.example.com", "F1")
        .allow_critical_fallback(false)
        .build()
        .unwrap();
    let calls = RefCell::new(Vec::new());
    let result =
        strict.execute_with_url(RequestPriority::Critical, |url: String| -> Result<u8, String> {
            calls.borrow_mut().push(url.clone());
            Err(format!("failed on {url}"))
        });
    assert!(matches!(result, Err(RpcPoolError::AllEndpointsFailed(_))));
    assert_eq!(*calls.borrow(), vec!["https://p1.example.com"]);
}

#[test]
fn low_priority_may_escalate_when_allowed() {
    let mut pool = TieredPoolBuilder::new()
        .add_premium("https://p1.example.com", "P1")
        .add_free("https://f1.example.com", "F1")
        .allow_low_escalation(true)
        .build()
        .unwrap();
    let calls = RefCell::new(Vec::new());
    let result = pool.execute_with_url(RequestPriority::Low, |url: String| -> Result<u8, String> {
        calls.borrow_mut().push(url.clone());
        if url == "https://f1.example.com" {
            Err("free down".to_string())
        } else {
            Ok(3)
        }
    });
    assert_eq!(result.unwrap(), 3);
    assert_eq!(*calls.borrow(), vec!["https://f1.example.com", "https://p1.example.com"]);
}

#[test]
fn pools_by_tier() {
    let pool = TieredPoolBuilder::new()
        .add_premium("https://p1.example.com", "P1")
        .add_free("https://f1.example.com", "F1")
        .add_free("https://f2.example.com", "F2")
        .build()
        .unwrap();
    assert_eq!(pool.premium_pool().unwrap().get_all_urls(), vec!["https://p1.example.com"]);
    assert!(pool.standard_pool().is_none());
    assert_eq!(pool.free_pool().unwrap().endpoint_count(), 2);
    assert!(pool.allows_critical_fallback());
    assert!(!pool.allows_low_escalation());
    let free = pool.get_tier_pool(EndpointTier::Free).unwrap();
    assert_eq!(free.get_all_urls(), vec!["https://f1.example.com", "https://f2.example.com"]);
    assert!(free.endpoint_stats("https://f2.example.com").unwrap().is_healthy);
    assert!(free.endpoint_stats("https://p1.example.com").is_none());
}

#[test]
fn the_free_tier_spreads_requests_by_idle_time() {
    let mut pool = TieredPoolBuilder::new()
        .add_free("https://f1.example.com", "F1")
        .add_free("https://f2.example.com", "F2")
        .add_free("https://f3.example.com", "F3")
        .build()
        .unwrap();
    let calls = RefCell::new(Vec::new());
    for _ in 0..3 {
        let result =
            pool.execute_with_url(RequestPriority::Low, |url: String| -> Result<u8, String> {
                calls.borrow_mut().push(url);
                Ok(0)
            });
        assert!(result.is_ok());
    }
    assert_eq!(
        *calls.borrow(),
        vec!["https://f1.example.com", "https://f2.example.com", "https://f3.example.com"]
    );
}

#[test]
fn tiered_execute_hands_out_parsed_urls() {
    let mut pool = TieredPoolBuilder::new()
        .add_standard("https://s1.example.com/rpc", "S1")
        .build()
        .unwrap();
    let result = pool.execute(RequestPriority::Normal, |url: url::Url| -> Result<String, String> {
        Ok(url.path().to_string())
    });
    assert_eq!(result.unwrap(), "/rpc");
    let result = pool.execute(RequestPriority::Low, |_url: url::Url| -> Result<u8, String> { Ok(1) });
    assert!(matches!(result, Err(RpcPoolError::NoEndpointsConfigured)));
}

#[test]
fn a_shut_down_tier_is_passed_over() {
    let pool = TieredPoolBuilder::new()
        .add_premium("https://p1.example.com", "P1")
        .build()
        .unwrap();
    let (premium, _, _) = pool.into_pools();
    let mut premium = premium.unwrap();
    premium.shutdown();
    let result = premium.execute_with_url(|_url: String| -> Result<u8, String> { Ok(1) });
    assert!(matches!(result, Err(RpcPoolError::PoolShutdown)));
}

#[test]
fn default_endpoints_of_several_chains_follow_one_another() {
    let pool = TieredPoolBuilder::new()
        .add_free("https://mine.example.com", "Mine")
        .with_default_free_endpoints_for_chains(&[chain_id::ARBITRUM_ONE, 99_999, chain_id::ETHEREUM])
        .build()
        .unwrap();
    let counts = pool.tier_endpoint_counts();
    assert_eq!(
        counts.get(&EndpointTier::Free),
        Some(&(1 + arbitrum_endpoints().len() + ethereum_endpoints().len()))
    );
    let unchanged = TieredPoolBuilder::new()
        .add_free("https://mine.example.com", "Mine")
        .with_default_free_endpoints_for_chains(&[])
        .build()
        .unwrap();
    assert_eq!(unchanged.tier_endpoint_counts().get(&EndpointTier::Free), Some(&1));
}

#[test]
fn route_passes_over_tiers_without_a_pool() {
    let present = TierPresence { premium: false, standard: true, free: true };
    assert!(!present.has(EndpointTier::Premium));
    assert!(present.has(EndpointTier::Free));

    let mut route = TierRoute::new(RequestPriority::Critical, true, false);
    assert_eq!(route.next_tier(&present), Some(EndpointTier::Standard));
    route.record_failure(RpcPoolError::AllEndpointsFailed("standard down".to_string()));
    assert_eq!(route.next_tier(&present), Some(EndpointTier::Free));
    route.record_failure(RpcPoolError::PoolShutdown);
    assert_eq!(route.next_tier(&present), None);
    assert_eq!(route.next_tier(&present), None);
    assert!(matches!(route.finish(), RpcPoolError::PoolShutdown));
}

#[test]
fn route_keeps_the_error_of_the_last_tier_that_failed() {
    let present = TierPresence { premium: true, standard: true, free: false };
    let mut route = TierRoute::new(RequestPriority::Low, false, true);
    assert_eq!(route.next_tier(&present), Some(EndpointTier::Standard));
    route.record_failure(RpcPoolError::AllEndpointsFailed("first".to_string()));
    assert_eq!(route.next_tier(&present), Some(EndpointTier::Premium));
    route.record_failure(RpcPoolError::AllEndpointsFailed("second".to_string()));
    assert_eq!(route.next_tier(&present), None);
    match route.finish() {
        RpcPoolError::AllEndpointsFailed(msg) => assert_eq!(msg, "second"),
        other => panic!("unexpected error: {other:?}"),
    }
}

#[test]
fn route_without_a_pool_ends_in_no_endpoints_configured() {
    let present = TierPresence { premium: true, standard: false, free: false };
    let mut route = TierRoute::new(RequestPriority::Normal, true, true);
    assert_eq!(route.next_tier(&present), None);
    assert!(matches!(route.finish(), RpcPoolError::NoEndpointsConfigured));
}

#[test]
fn a_tiered_pool_tells_which_tiers_it_has() {
    let pool = TieredPoolBuilder::new()
        .add_premium("https://p1.example.com", "P1")
        .add_free("https://f1.example.com", "F1")
        .build()
        .unwrap();
    let present = pool.presence();
    assert!(present.premium);
    assert!(!present.standard);
    assert!(present.free);
    let mut route = pool.begin_route(RequestPriority::Normal);
    assert_eq!(route.next_tier(&present), Some(EndpointTier::Free));
}

#[test]
fn a_success_leaves_the_later_tiers_untouched() {
    let mut pool = TieredPoolBuilder::new()
        .add_premium("https://p1.example.com", "P1")
        .add_standard("https://s1.example.com", "S1")
        .add_free("https://f1.example.com", "F1")
        .allow_critical_fallback(true)
        .build()
        .unwrap();
    let result =
        pool.execute_with_url(RequestPriority::Critical, |url: String| -> Result<u8, String> {
            if url == "https://p1.example.com" {
                Err("premium down".to_string())
            } else {
                Ok(7)
            }
        });
    assert_eq!(result.unwrap(), 7);

    let premium = pool.get_tier_pool(EndpointTier::Premium).unwrap();
    let stats = premium.endpoint_stats("https://p1.example.com").unwrap();
    assert_eq!(stats.total_requests, 1);
    assert_eq!(stats.last_error.as_deref(), Some("premium down"));
    let standard = pool.get_tier_pool(EndpointTier::Standard).unwrap();
    assert_eq!(standard.endpoint_stats("https://s1.example.com").unwrap().successful_requests, 1);
    let free = pool.get_tier_pool(EndpointTier::Free).unwrap();
    let stats = free.endpoint_stats("https://f1.example.com").unwrap();
    assert_eq!(stats.total_requests, 0);
    assert!(stats.last_error.is_none());
}
