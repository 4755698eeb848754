//! WebSocket subscription pool: the endpoints that offer a WebSocket
//! transport, in priority order, and the rule by which a subscription fails
//! over from one to the next.

use crate::arrange::sort_by_priority;
use crate::arrange::sort_endpoints;
use crate::endpoint::RpcEndpoint;
use crate::error::RpcPoolError;
use crate::text::decimal;
use crate::text::decimal_string;
use crate::time::duration_millis;
use crate::time::duration_secs;
use std::time::Duration;
use vstd::prelude::*;
use vstd::string::*;

verus! {

/// Default connection timeout for WebSocket endpoints, in seconds.
pub const DEFAULT_WS_CONNECT_TIMEOUT_SECS: u64 = 15;

/// Default delay between reconnection attempts, in milliseconds.
pub const DEFAULT_RECONNECT_DELAY_MS: u64 = 1000;

/// Maximum reconnection delay, in milliseconds.
pub const MAX_RECONNECT_DELAY_MS: u64 = 30_000;

/// Configuration of the WebSocket pool.
#[derive(Clone, Copy)]
pub struct WsPoolConfig {
    /// Connection timeout for WebSocket endpoints.
    pub connect_timeout: Duration,
    /// Base delay between reconnection attempts.
    pub reconnect_delay: Duration,
    /// Maximum reconnection delay.
    pub max_reconnect_delay: Duration,
}

impl Default for WsPoolConfig {
    fn default() -> (r: Self)
        ensures
            duration_secs(r.connect_timeout) == DEFAULT_WS_CONNECT_TIMEOUT_SECS,
            duration_millis(r.reconnect_delay) == DEFAULT_RECONNECT_DELAY_MS,
            duration_millis(r.max_reconnect_delay) == MAX_RECONNECT_DELAY_MS,
    {
        WsPoolConfig {
            connect_timeout: Duration::from_secs(DEFAULT_WS_CONNECT_TIMEOUT_SECS),
            reconnect_delay: Duration::from_millis(DEFAULT_RECONNECT_DELAY_MS),
            max_reconnect_delay: Duration::from_millis(MAX_RECONNECT_DELAY_MS),
        }
    }
}

/// The endpoints with a WebSocket URL among the first `n`, in their order.
pub open spec fn with_ws_url(endpoints: Seq<RpcEndpoint>, n: nat) -> Seq<RpcEndpoint>
    decreases n,
{
    if n == 0 {
        Seq::empty()
    } else {
        let before = with_ws_url(endpoints, (n - 1) as nat);
        if endpoints[n - 1].ws_url is Some {
            before.push(endpoints[n - 1])
        } else {
            before
        }
    }
}

/// The endpoints of a WebSocket pool made from a list: those with a
/// WebSocket URL, sorted by priority.
pub open spec fn ws_pool_order(endpoints: Seq<RpcEndpoint>) -> Seq<RpcEndpoint> {
    let capable = with_ws_url(endpoints, endpoints.len());
    sort_by_priority(capable, capable.len())
}

/// WebSocket subscription pool with failover.
pub struct WsPool {
    endpoints: Vec<RpcEndpoint>,
    config: WsPoolConfig,
    shutdown: bool,
}

/// Every endpoint that was kept has a WebSocket URL.
proof fn lemma_with_ws_url(endpoints: Seq<RpcEndpoint>, n: nat)
    requires
        n <= endpoints.len(),
    ensures
        forall|k: int|
            0 <= k < with_ws_url(endpoints, n).len() ==> (#[trigger] with_ws_url(endpoints, n)[k]).ws_url is Some,
    decreases n,
{
    if n > 0 {
        lemma_with_ws_url(endpoints, (n - 1) as nat);
    }
}

/// Sorting keeps a property that every endpoint of the input has.
proof fn lemma_sort_keeps_ws_url(endpoints: Seq<RpcEndpoint>, n: nat)
    requires
        n <= endpoints.len(),
        forall|k: int| 0 <= k < endpoints.len() ==> (#[trigger] endpoints[k]).ws_url is Some,
    ensures
        sort_by_priority(endpoints, n).len() == n,
        forall|k: int|
            0 <= k < n ==> (#[trigger] sort_by_priority(endpoints, n)[k]).ws_url is Some,
    decreases n,
{
    if n > 0 {
        let before = sort_by_priority(endpoints, (n - 1) as nat);
        let pos = crate::arrange::insert_position(before, endpoints[n - 1].priority);
        lemma_sort_keeps_ws_url(endpoints, (n - 1) as nat);
        crate::arrange::lemma_insert_position(before, endpoints[n - 1].priority);
        let out = sort_by_priority(endpoints, n);
        assert forall|k: int| 0 <= k < n implies (#[trigger] out[k]).ws_url is Some by {
            if k < pos {
                assert(out[k] == before[k]);
            } else if k > pos {
                assert(out[k] == before[k - 1]);
            }
        }
    }
}

/// The error for a connection that was not made within the timeout.
pub open spec fn connect_timeout_message(timeout_millis: u128, ws_url: Seq<char>) -> Seq<char> {
    "Connection timeout after "@ + decimal(timeout_millis as nat) + "ms to "@ + ws_url
}

/// The error for a connection that could not be made.
pub open spec fn connect_failed_message(ws_url: Seq<char>, cause: Seq<char>) -> Seq<char> {
    "Failed to connect to "@ + ws_url + ": "@ + cause
}

/// The error for a subscription that an endpoint refused.
pub open spec fn subscribe_failed_message(name: Seq<char>, cause: Seq<char>) -> Seq<char> {
    "Subscribe failed on "@ + name + ": "@ + cause
}

/// The error that reports a connection that was not made within the
/// timeout.
pub fn connect_timeout_error(timeout: Duration, ws_url: &str) -> (e: RpcPoolError)
    ensures
        e matches RpcPoolError::WebSocketError(m) && m@ == connect_timeout_message(
            duration_millis(timeout),
            ws_url@,
        ),
{
    let digits = decimal_string(timeout.as_millis());
    RpcPoolError::WebSocketError(
        String::from_str("Connection timeout after ").concat(digits.as_str()).concat(
            "ms to ",
        ).concat(ws_url),
    )
}

/// The error that reports a connection that could not be made.
pub fn connect_failed_error(ws_url: &str, cause: &str) -> (e: RpcPoolError)
    ensures
        e matches RpcPoolError::WebSocketError(m) && m@ == connect_failed_message(ws_url@, cause@),
{
    RpcPoolError::WebSocketError(
        String::from_str("Failed to connect to ").concat(ws_url).concat(": ").concat(cause),
    )
}

/// The error that reports a subscription that an endpoint refused.
pub fn subscribe_failed_error(name: &str, cause: &str) -> (e: RpcPoolError)
    ensures
        e matches RpcPoolError::WebSocketError(m) && m@ == subscribe_failed_message(name@, cause@),
{
    RpcPoolError::WebSocketError(
        String::from_str("Subscribe failed on ").concat(name).concat(": ").concat(cause),
    )
}

impl WsPool {
    /// The endpoints of the pool, in priority order.
    pub closed spec fn endpoints(self) -> Seq<RpcEndpoint> {
        self.endpoints@
    }

    /// The configuration of the pool.
    pub closed spec fn config(self) -> WsPoolConfig {
        self.config
    }

    /// Whether the pool has been shut down.
    pub closed spec fn spec_is_shutdown(self) -> bool {
        self.shutdown
    }

    /// What holds of every WebSocket pool: it has endpoints, and each has a
    /// WebSocket URL.
    pub open spec fn wf(self) -> bool {
        &&& self.endpoints().len() > 0
        &&& forall|i: int|
            0 <= i < self.endpoints().len() ==> (#[trigger] self.endpoints()[i]).ws_url is Some
    }

    /// Create a WebSocket pool with the default configuration (see
    /// `with_config`).
    pub fn new(endpoints: Vec<RpcEndpoint>) -> (r: Result<Self, RpcPoolError>)
        ensures
            with_ws_url(endpoints@, endpoints@.len()).len() == 0 <==> r is Err,
            r matches Err(e) ==> e == RpcPoolError::NoWebSocketEndpoints,
            r matches Ok(pool) ==> {
                &&& pool.wf()
                &&& pool.endpoints() == ws_pool_order(endpoints@)
                &&& !pool.spec_is_shutdown()
                &&& duration_secs(pool.config().connect_timeout) == DEFAULT_WS_CONNECT_TIMEOUT_SECS
                &&& duration_millis(pool.config().reconnect_delay) == DEFAULT_RECONNECT_DELAY_MS
                &&& duration_millis(pool.config().max_reconnect_delay) == MAX_RECONNECT_DELAY_MS
            },
    {
        WsPool::with_config(endpoints, WsPoolConfig::default())
    }

    /// Create a WebSocket pool: the endpoints that have a WebSocket URL,
    /// sorted by priority, equal priorities in the order given. A list without
    /// such an endpoint is refused.
    pub fn with_config(endpoints: Vec<RpcEndpoint>, config: WsPoolConfig) -> (r: Result<
        Self,
        RpcPoolError,
    >)
        ensures
            with_ws_url(endpoints@, endpoints@.len()).len() == 0 <==> r is Err,
            r matches Err(e) ==> e == RpcPoolError::NoWebSocketEndpoints,
            r matches Ok(pool) ==> {
                &&& pool.wf()
                &&& pool.endpoints() == ws_pool_order(endpoints@)
                &&& pool.config() == config
                &&& !pool.spec_is_shutdown()
            },
    {
        let mut capable: Vec<RpcEndpoint> = Vec::new();
        let mut i: usize = 0;
        while i < endpoints.len()
            invariant
                i <= endpoints@.len(),
                capable@ == with_ws_url(endpoints@, i as nat),
            decreases endpoints@.len() - i,
        {
            if endpoints[i].ws_url.is_some() {
                capable.push(endpoints[i].duplicate());
            }
            i = i + 1;
        }
        if capable.len() == 0 {
            return Err(RpcPoolError::NoWebSocketEndpoints);
        }
        let sorted = sort_endpoints(&capable);
        proof {
            lemma_with_ws_url(endpoints@, endpoints@.len());
            lemma_sort_keeps_ws_url(capable@, capable@.len());
        }
        Ok(WsPool { endpoints: sorted, config, shutdown: false })
    }

    /// The number of WebSocket-capable endpoints.
    pub fn endpoint_count(&self) -> (r: usize)
        ensures
            r == self.endpoints().len(),
    {
        self.endpoints.len()
    }

    /// All WebSocket URLs, in priority order.
    pub fn ws_urls(&self) -> (urls: Vec<String>)
        requires
            self.wf(),
        ensures
            urls@.len() == self.endpoints().len(),
            forall|i: int|
                0 <= i < urls@.len() ==> Some(#[trigger] urls@[i]) == self.endpoints()[i].ws_url,
    {
        let mut urls: Vec<String> = Vec::new();
        let mut i: usize = 0;
        while i < self.endpoints.len()
            invariant
                i <= self.endpoints@.len(),
                self.wf(),
                urls@.len() == i,
                forall|j: int| 0 <= j < i ==> Some(#[trigger] urls@[j]) == self.endpoints@[j].ws_url,
            decreases self.endpoints@.len() - i,
        {
            match &self.endpoints[i].ws_url {
                Some(w) => {
                    urls.push(w.clone());
                },
                None => {
                    proof {
                        assert(false);
                    }
                },
            }
            i = i + 1;
        }
        urls
    }

    /// The connection timeout of the pool.
    pub fn connect_timeout(&self) -> (r: Duration)
        ensures
            r == self.config().connect_timeout,
    {
        self.config.connect_timeout
    }

    /// Subscribe with failover: `connect` is invoked with the WebSocket URL
    /// of each endpoint, in priority order, until it succeeds. The first
    /// success is returned; when every endpoint has failed, the error of the
    /// last one is returned.
    pub fn subscribe_with<S, F: Fn(String) -> Result<S, RpcPoolError>>(&self, connect: F) -> (r:
        Result<S, RpcPoolError>)
        requires
            self.wf(),
            forall|u: String| #[trigger] connect.requires((u,)),
        ensures
            r matches Ok(s) ==> exists|i: int|
                0 <= i < self.endpoints().len() && connect.ensures(
                    ((#[trigger] self.endpoints()[i]).ws_url->0,),
                    Ok(s),
                ),
            r matches Err(e) ==> connect.ensures(
                (self.endpoints().last().ws_url->0,),
                Err(e),
            ),
    {
        let mut last_error: Option<RpcPoolError> = None;
        let mut i: usize = 0;
        while i < self.endpoints.len()
            invariant
                i <= self.endpoints@.len(),
                self.wf(),
                i > 0 ==> last_error is Some,
                last_error matches Some(e) ==> i > 0 && connect.ensures(
                    (self.endpoints@[i - 1].ws_url->0,),
                    Err(e),
                ),
                forall|u: String| #[trigger] connect.requires((u,)),
            decreases self.endpoints@.len() - i,
        {
            match &self.endpoints[i].ws_url {
                Some(w) => {
                    match connect(w.clone()) {
                        Ok(s) => {
                            return Ok(s);
                        },
                        Err(e) => {
                            last_error = Some(e);
                        },
                    }
                },
                None => {
                    proof {
                        assert(false);
                    }
                },
            }
            i = i + 1;
        }
        match last_error {
            Some(e) => Err(e),
            None => Err(RpcPoolError::NoWebSocketEndpoints),
        }
    }

    /// Shut the pool down: streams stop reconnecting.
    pub fn shutdown(&mut self)
        ensures
            final(self).spec_is_shutdown(),
            final(self).endpoints() == old(self).endpoints(),
            final(self).config() == old(self).config(),
    {
        self.shutdown = true;
    }

    /// Check if the pool has been shut down.
    pub fn is_shutdown(&self) -> (r: bool)
        ensures
            r == self.spec_is_shutdown(),
    {
        self.shutdown
    }
}

} // verus!
