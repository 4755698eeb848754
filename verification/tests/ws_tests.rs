//! The WebSocket pool.

use std::cell::RefCell;
use std::time::Duration;
use web3_rpc_pool::endpoint::RpcEndpoint;
use web3_rpc_pool::ws::{
    connect_failed_error, connect_timeout_error, subscribe_failed_error, WsPool, WsPoolConfig,
};
use web3_rpc_pool::RpcPoolError;

fn create_ws_endpoints() -> Vec<RpcEndpoint> {
    vec![
        RpcEndpoint::new("https://rpc1.example.com")
            .with_name("Test1")
            .with_ws_url("wss://ws1.example.com")
            .with_priority(10),
        RpcEndpoint::new("https://rpc2.example.com")
            .with_name("Test2")
            .with_ws_url("wss://ws2.example.com")
            .with_priority(50),
    ]
}

#[test]
fn test_ws_pool_creation() {
    let pool = WsPool::new(create_ws_endpoints());
    assert!(pool.is_ok());
    let pool = pool.unwrap();
    assert_eq!(pool.endpoint_count(), 2);
}

#[test]
fn test_ws_pool_filters_non_ws_endpoints() {
    let endpoints = vec![
        RpcEndpoint::new("https://rpc1.example.com")
            .with_name("WithWS")
            .with_ws_url("wss://ws1.example.com"),
        RpcEndpoint::new("https://rpc2.example.com").with_name("WithoutWS"),
    ];

    let pool = WsPool::new(endpoints).unwrap();
    assert_eq!(pool.endpoint_count(), 1);
}

#[test]
fn test_ws_pool_no_ws_endpoints() {
    let endpoints = vec![
        RpcEndpoint::new("https://rpc1.example.com").with_name("NoWS1"),
        RpcEndpoint::new("https://rpc2.example.com").with_name("NoWS2"),
    ];

    let pool = WsPool::new(endpoints);
    assert!(matches!(pool, Err(RpcPoolError::NoWebSocketEndpoints)));
}

#[test]
fn test_ws_pool_urls() {
    let pool = WsPool::new(create_ws_endpoints()).unwrap();
    let urls = pool.ws_urls();
    assert_eq!(urls.len(), 2);
    assert_eq!(urls[0], "wss://ws1.example.com");
    assert_eq!(urls[1], "wss://ws2.example.com");
}

#[test]
fn test_ws_pool_priority_sorting() {
    let endpoints = vec![
        RpcEndpoint::new("https://rpc1.example.com")
            .with_name("Low Priority")
            .with_ws_url("wss://ws1.example.com")
            .with_priority(100),
        RpcEndpoint::new("https://rpc2.example.com")
            .with_name("High Priority")
            .with_ws_url("wss://ws2.example.com")
            .with_priority(10),
    ];

    let pool = WsPool::new(endpoints).unwrap();
    let urls = pool.ws_urls();
    // Higher priority (lower number) should come first
    assert_eq!(urls[0], "wss://ws2.example.com");
    assert_eq!(urls[1], "wss://ws1.example.com");
}

#[test]
fn test_ws_pool_shutdown() {
    let mut pool = WsPool::new(create_ws_endpoints()).unwrap();
    assert!(!pool.is_shutdown());
    pool.shutdown();
    assert!(pool.is_shutdown());
}

#[test]
fn test_ws_pool_config() {
    let config = WsPoolConfig {
        connect_timeout: Duration::from_secs(5),
        reconnect_delay: Duration::from_millis(500),
        max_reconnect_delay: Duration::from_secs(10),
    };

    let pool = WsPool::with_config(create_ws_endpoints(), config).unwrap();
    assert_eq!(pool.endpoint_count(), 2);
}

#[test]
fn default_ws_configuration() {
    let config = WsPoolConfig::default();
    assert_eq!(config.connect_timeout, Duration::from_secs(15));
    assert_eq!(config.reconnect_delay, Duration::from_millis(1000));
    assert_eq!(config.max_reconnect_delay, Duration::from_millis(30_000));
    let pool = WsPool::new(create_ws_endpoints()).unwrap();
    assert_eq!(pool.connect_timeout(), Duration::from_secs(15));
    let custom = WsPoolConfig { connect_timeout: Duration::from_secs(2), ..config };
    let pool = WsPool::with_config(create_ws_endpoints(), custom).unwrap();
    assert_eq!(pool.connect_timeout(), Duration::from_secs(2));
}

#[test]
fn empty_list_has_no_ws_endpoints() {
    assert!(matches!(WsPool::new(vec![]), Err(RpcPoolError::NoWebSocketEndpoints)));
}

#[test]
fn ws_endpoints_keep_their_order_among_equal_priorities() {
    let endpoints = vec![
        RpcEndpoint::new("https://a.example.com").with_ws_url("wss://a.example.com"),
        RpcEndpoint::new("https://b.example.com"),
        RpcEndpoint::new("https://c.example.com").with_ws_url("wss://c.example.com"),
        RpcEndpoint::new("https://d.example.com")
            .with_ws_url("wss://d.example.com")
            .with_priority(1),
        RpcEndpoint::new("https://e.example.com").with_ws_url("wss://e.example.com"),
    ];
    let pool = WsPool::new(endpoints).unwrap();
    assert_eq!(
        pool.ws_urls(),
        vec!["wss://d.example.com", "wss://a.example.com", "wss://c.example.com", "wss://e.example.com"]
    );
}

#[test]
fn subscription_fails_over_in_priority_order() {
    let pool = WsPool::new(create_ws_endpoints()).unwrap();
    let tried = RefCell::new(Vec::new());
    let result = pool.subscribe_with(|ws_url: String| -> Result<u32, RpcPoolError> {
        tried.borrow_mut().push(ws_url.clone());
        if ws_url == "wss://ws1.example.com" {
            Err(connect_failed_error(&ws_url, "refused"))
        } else {
            Ok(7)
        }
    });
    assert_eq!(result.unwrap(), 7);
    assert_eq!(*tried.borrow(), vec!["wss://ws1.example.com", "wss://ws2.example.com"]);

    let tried = RefCell::new(Vec::new());
    let result = pool.subscribe_with(|ws_url: String| -> Result<u32, RpcPoolError> {
        tried.borrow_mut().push(ws_url);
        Ok(1)
    });
    assert_eq!(result.unwrap(), 1);
    assert_eq!(*tried.borrow(), vec!["wss://ws1.example.com"]);

    let result = pool.subscribe_with(|ws_url: String| -> Result<u32, RpcPoolError> {
        Err(subscribe_failed_error(&ws_url, "no such method"))
    });
    match result {
        Err(RpcPoolError::WebSocketError(msg)) => {
            assert_eq!(msg, "Subscribe failed on wss://ws2.example.com: no such method")
        }
        other => panic!("unexpected: {other:?}"),
    }
}

#[test]
fn ws_error_messages() {
    let e = connect_timeout_error(Duration::from_millis(1_500), "wss://ws1.example.com");
    assert_eq!(e.message(), "WebSocket error: Connection timeout after 1500ms to wss://ws1.example.com");
    let e = connect_timeout_error(Duration::from_secs(15), "wss://x");
    assert!(matches!(&e, RpcPoolError::WebSocketError(m) if m == "Connection timeout after 15000ms to wss://x"));
    let e = connect_failed_error("wss://ws1.example.com", "refused");
    assert!(matches!(&e, RpcPoolError::WebSocketError(m) if m == "Failed to connect to wss://ws1.example.com: refused"));
    let e = subscribe_failed_error("Test1", "closed");
    assert!(matches!(&e, RpcPoolError::WebSocketError(m) if m == "Subscribe failed on Test1: closed"));
}
