//! The pool: endpoints, their statistics, the failover loop and the health
//! check.

use crate::arrange::distinct_urls;
use crate::arrange::has_url;
use crate::arrange::lemma_pool_order;
use crate::arrange::pool_order;
use crate::arrange::remove_duplicate_urls;
use crate::arrange::sort_endpoints;
use crate::arrange::sorted_by_priority;
use crate::endpoint::backoff_delay_nanos;
use crate::endpoint::due_after;
use crate::endpoint::rate_milli_percent;
use crate::endpoint::EndpointStats;
use crate::endpoint::RpcEndpoint;
use crate::error::RpcPoolError;
use crate::metrics::EndpointMetrics;
use crate::metrics::RpcPoolMetrics;
use crate::stats_map::stats_entries;
use crate::stats_map::stats_map_get;
use crate::stats_map::stats_map_insert;
use crate::stats_map::stats_map_new;
use crate::strategies::chosen;
use crate::strategies::eligible;
use crate::strategies::is_candidate;
use crate::strategies::valid_choice;
use crate::strategies::FailoverStrategy;
use crate::strategies::SelectionStrategy;
use crate::strategies::StatsSnapshot;
use crate::strategies::UrlSet;
use crate::text::decimal;
use crate::text::decimal_string;
use crate::time::clock_now;
use crate::time::duration_millis;
use crate::time::duration_nanos;
use crate::time::duration_secs;
use crate::url_text::parse_error_description;
use crate::url_text::parse_error_text;
use crate::url_text::parse_url;
use crate::url_text::url_parse_result;
use dashmap::DashMap;
use std::time::Duration;
use vstd::prelude::*;
use vstd::string::*;
use vstd::utf8::*;

verus! {

/// Longest error message, in bytes, that is kept as it is.
pub const MAX_ERROR_MESSAGE_LENGTH: usize = 512;

/// Summary of the health of the endpoints of a pool.
#[derive(Debug, Clone, Copy)]
pub struct HealthSummary {
    /// Number of healthy endpoints.
    pub healthy: usize,
    /// Number of unhealthy endpoints.
    pub unhealthy: usize,
    /// Total number of endpoints.
    pub total: usize,
}

impl HealthSummary {
    /// Share of healthy endpoints in thousandths of a percent; 0 for a pool
    /// without endpoints.
    pub open spec fn spec_health_percentage(self) -> int {
        rate_milli_percent(self.healthy as int, self.total as int, 0)
    }

    /// Returns true if there are endpoints and none of them is healthy.
    pub fn all_unhealthy(&self) -> (r: bool)
        ensures
            r == (self.healthy == 0 && self.total > 0),
    {
        self.healthy == 0 && self.total > 0
    }

    /// Share of healthy endpoints in thousandths of a percent, rounded down;
    /// 0 for a pool without endpoints.
    pub fn health_percentage(&self) -> (r: u64)
        requires
            self.healthy <= self.total,
        ensures
            r == self.spec_health_percentage(),
            r <= 100_000,
    {
        if self.total == 0 {
            return 0;
        }
        let part: u128 = self.healthy as u128 * 100_000;
        let r: u128 = part / (self.total as u128);
        assert(r <= 100_000) by (nonlinear_arith)
            requires
                r == part / (self.total as u128),
                part == self.healthy * 100_000,
                self.healthy <= self.total,
                self.total > 0,
        ;
        r as u64
    }
}

/// The last char boundary of `bytes` at or below `from`.
pub open spec fn boundary_at_or_below(bytes: Seq<u8>, from: int) -> int
    decreases from,
{
    if from <= 0 || is_char_boundary(bytes, from) {
        from
    } else {
        boundary_at_or_below(bytes, from - 1)
    }
}

/// An error message as the pool keeps it: unchanged up to 512 bytes of
/// UTF-8; a longer one is cut at the last character that ends within the
/// first 512 bytes, and marked.
pub open spec fn truncated_message(msg: Seq<char>) -> Seq<char> {
    let bytes = encode_utf8(msg);
    if bytes.len() <= 512 {
        msg
    } else {
        decode_utf8(bytes.subrange(0, boundary_at_or_below(bytes, 512))) + "...(truncated)"@
    }
}

/// Truncate an error message so that stored messages cannot grow without
/// bound.
pub fn truncate_error_message(msg: &str) -> (r: String)
    ensures
        r@ == truncated_message(msg@),
{
    broadcast use vstd::utf8::group_utf8_lib;

    if msg.as_bytes().len() <= MAX_ERROR_MESSAGE_LENGTH {
        return msg.to_owned();
    }
    let ghost bytes = msg.spec_bytes();
    let mut cut: usize = MAX_ERROR_MESSAGE_LENGTH;
    while !msg.is_char_boundary(cut)
        invariant
            cut <= 512,
            bytes == msg.spec_bytes(),
            bytes.len() > 512,
            valid_utf8(bytes),
            boundary_at_or_below(bytes, 512) == boundary_at_or_below(bytes, cut as int),
        decreases cut,
    {
        cut = cut - 1;
    }
    let (head, _) = msg.split_at(cut);
    assert(head@ == decode_utf8(bytes.subrange(0, cut as int)));
    head.to_owned().concat("...(truncated)")
}

/// Default request timeout in seconds.
pub const DEFAULT_REQUEST_TIMEOUT_SECS: u64 = 30;

/// Default health check timeout in seconds.
pub const DEFAULT_HEALTH_CHECK_TIMEOUT_SECS: u64 = 10;

/// Configuration of a pool.
pub struct RpcPoolConfig<S: SelectionStrategy = Box<dyn SelectionStrategy>> {
    /// The endpoints; the pool sorts them by priority.
    pub endpoints: Vec<RpcEndpoint>,
    /// Strategy for selecting endpoints.
    pub strategy: S,
    /// Interval between health checks.
    pub health_check_interval: Duration,
    /// Number of consecutive errors before an endpoint is marked unhealthy.
    pub max_consecutive_errors: u32,
    /// Base delay before an unhealthy endpoint is probed again.
    pub retry_delay: Duration,
    /// Timeout of a single request.
    pub request_timeout: Duration,
    /// Timeout of a health probe.
    pub health_check_timeout: Duration,
}

impl Default for RpcPoolConfig<FailoverStrategy> {
    fn default() -> (r: Self)
        ensures
            r.endpoints@.len() == 0,
            duration_secs(r.health_check_interval) == 60,
            r.max_consecutive_errors == 3,
            duration_secs(r.retry_delay) == 5,
            duration_nanos(r.retry_delay) == 5_000_000_000,
            duration_secs(r.request_timeout) == DEFAULT_REQUEST_TIMEOUT_SECS,
            duration_millis(r.request_timeout) == DEFAULT_REQUEST_TIMEOUT_SECS * 1000,
            duration_secs(r.health_check_timeout) == DEFAULT_HEALTH_CHECK_TIMEOUT_SECS,
            duration_millis(r.health_check_timeout) == DEFAULT_HEALTH_CHECK_TIMEOUT_SECS * 1000,
    {
        RpcPoolConfig {
            endpoints: Vec::new(),
            strategy: FailoverStrategy,
            health_check_interval: Duration::from_secs(60),
            max_consecutive_errors: 3,
            retry_delay: Duration::from_secs(5),
            request_timeout: Duration::from_secs(DEFAULT_REQUEST_TIMEOUT_SECS),
            health_check_timeout: Duration::from_secs(DEFAULT_HEALTH_CHECK_TIMEOUT_SECS),
        }
    }
}

impl RpcPoolConfig<FailoverStrategy> {
    /// Create a configuration with default values: no endpoints, failover
    /// strategy, health check every 60 s, three consecutive errors, retry
    /// delay 5 s, request timeout 30 s, probe timeout 10 s.
    pub fn new() -> (r: Self)
        ensures
            r.endpoints@.len() == 0,
            duration_secs(r.health_check_interval) == 60,
            r.max_consecutive_errors == 3,
            duration_secs(r.retry_delay) == 5,
            duration_nanos(r.retry_delay) == 5_000_000_000,
            duration_secs(r.request_timeout) == DEFAULT_REQUEST_TIMEOUT_SECS,
            duration_millis(r.request_timeout) == DEFAULT_REQUEST_TIMEOUT_SECS * 1000,
            duration_secs(r.health_check_timeout) == DEFAULT_HEALTH_CHECK_TIMEOUT_SECS,
            duration_millis(r.health_check_timeout) == DEFAULT_HEALTH_CHECK_TIMEOUT_SECS * 1000,
    {
        RpcPoolConfig::default()
    }
}

impl<S: SelectionStrategy> RpcPoolConfig<S> {
    /// Builder: set the endpoints.
    pub fn with_endpoints(self, endpoints: Vec<RpcEndpoint>) -> (r: Self)
        ensures
            r == (RpcPoolConfig { endpoints, ..self }),
    {
        let mut r = self;
        r.endpoints = endpoints;
        r
    }

    /// Builder: set the strategy. A boxed strategy is a strategy too, so
    /// that the choice can be left to run time.
    pub fn with_strategy<S2: SelectionStrategy>(self, strategy: S2) -> (r: RpcPoolConfig<S2>)
        ensures
            r.strategy == strategy,
            r.endpoints == self.endpoints,
            r.health_check_interval == self.health_check_interval,
            r.max_consecutive_errors == self.max_consecutive_errors,
            r.retry_delay == self.retry_delay,
            r.request_timeout == self.request_timeout,
            r.health_check_timeout == self.health_check_timeout,
    {
        RpcPoolConfig {
            endpoints: self.endpoints,
            strategy,
            health_check_interval: self.health_check_interval,
            max_consecutive_errors: self.max_consecutive_errors,
            retry_delay: self.retry_delay,
            request_timeout: self.request_timeout,
            health_check_timeout: self.health_check_timeout,
        }
    }

    /// Builder: set the health check interval.
    pub fn with_health_check_interval(self, interval: Duration) -> (r: Self)
        ensures
            r == (RpcPoolConfig { health_check_interval: interval, ..self }),
    {
        let mut r = self;
        r.health_check_interval = interval;
        r
    }

    /// Builder: set the number of consecutive errors that quarantines an
    /// endpoint.
    pub fn with_max_consecutive_errors(self, max: u32) -> (r: Self)
        ensures
            r == (RpcPoolConfig { max_consecutive_errors: max, ..self }),
    {
        let mut r = self;
        r.max_consecutive_errors = max;
        r
    }

    /// Builder: set the retry delay.
    pub fn with_retry_delay(self, delay: Duration) -> (r: Self)
        ensures
            r == (RpcPoolConfig { retry_delay: delay, ..self }),
    {
        let mut r = self;
        r.retry_delay = delay;
        r
    }

    /// Builder: set the request timeout.
    pub fn with_request_timeout(self, timeout: Duration) -> (r: Self)
        ensures
            r == (RpcPoolConfig { request_timeout: timeout, ..self }),
    {
        let mut r = self;
        r.request_timeout = timeout;
        r
    }

    /// Builder: set the health check timeout.
    pub fn with_health_check_timeout(self, timeout: Duration) -> (r: Self)
        ensures
            r == (RpcPoolConfig { health_check_timeout: timeout, ..self }),
    {
        let mut r = self;
        r.health_check_timeout = timeout;
        r
    }
}

/// What a pool is, apart from the inner state of its strategy.
pub struct PoolView {
    /// The endpoints in the order in which they are offered to the strategy.
    pub endpoints: Seq<RpcEndpoint>,
    /// The statistics of each endpoint, by URL.
    pub stats: Map<Seq<char>, EndpointStats>,
    /// Number of consecutive errors that quarantines an endpoint.
    pub max_consecutive_errors: u32,
    /// Base delay of the recovery backoff.
    pub retry_delay: Duration,
    /// Interval between health checks.
    pub health_check_interval: Duration,
    /// Timeout of a single request.
    pub request_timeout: Duration,
    /// Timeout of a health probe.
    pub health_check_timeout: Duration,
    /// Requests begun so far.
    pub total_requests: u64,
    /// Failed attempts so far.
    pub failovers: u64,
    /// Whether the pool has been shut down.
    pub shutdown: bool,
}

/// What holds of every pool: it has endpoints, sorted by priority and with
/// distinct URLs, and valid statistics under the URL of each endpoint and
/// under no other.
pub open spec fn pool_wf(v: PoolView) -> bool {
    &&& v.endpoints.len() > 0
    &&& distinct_urls(v.endpoints)
    &&& sorted_by_priority(v.endpoints)
    &&& forall|url: Seq<char>| #[trigger] v.stats.contains_key(url) <==> has_url(v.endpoints, url)
    &&& forall|url: Seq<char>| #[trigger]
        v.stats.contains_key(url) ==> v.stats[url].wf() && v.stats[url].url@ == url
}

/// A counter after `by` more events; it stops at the largest value.
pub open spec fn counter_after(counter: u64, by: int) -> u64 {
    if counter + by > u64::MAX {
        u64::MAX
    } else {
        (counter + by) as u64
    }
}

/// Number of endpoints among the first `n` whose statistics call them
/// healthy.
pub open spec fn healthy_count(v: PoolView, n: nat) -> nat
    decreases n,
{
    if n == 0 {
        0
    } else {
        let before = healthy_count(v, (n - 1) as nat);
        if v.stats.contains_key(v.endpoints[n - 1].url@) && v.stats[v.endpoints[n - 1].url@].is_healthy
        {
            before + 1
        } else {
            before
        }
    }
}

/// High-availability pool of endpoints with automatic failover.
///
/// The pool is a plain value: every operation that changes it asks for
/// exclusive access. A caller that shares a pool between tasks puts it
/// behind a lock and holds the lock for the length of one operation, never
/// across a request.
pub struct RpcPool<S: SelectionStrategy = Box<dyn SelectionStrategy>> {
    endpoints: Vec<RpcEndpoint>,
    stats: DashMap<String, EndpointStats>,
    strategy: S,
    max_consecutive_errors: u32,
    retry_delay: Duration,
    health_check_interval: Duration,
    request_timeout: Duration,
    health_check_timeout: Duration,
    total_requests: u64,
    failovers: u64,
    shutdown: bool,
}

impl<S: SelectionStrategy> View for RpcPool<S> {
    type V = PoolView;

    closed spec fn view(&self) -> PoolView {
        PoolView {
            endpoints: self.endpoints@,
            stats: stats_entries(self.stats),
            max_consecutive_errors: self.max_consecutive_errors,
            retry_delay: self.retry_delay,
            health_check_interval: self.health_check_interval,
            request_timeout: self.request_timeout,
            health_check_timeout: self.health_check_timeout,
            total_requests: self.total_requests,
            failovers: self.failovers,
            shutdown: self.shutdown,
        }
    }
}

/// Progress of one request through the endpoints of a pool.
pub struct RequestState {
    request_id: u64,
    tried: UrlSet,
    attempts: usize,
    last_error: Option<String>,
    attempted: Ghost<Seq<int>>,
}

/// What a pool asks its caller to do next for a request.
pub enum RequestStep {
    /// Invoke the operation on this endpoint and report the outcome.
    Attempt(RpcEndpoint),
    /// The request is over without a result.
    Finished(RpcPoolError),
}

impl RequestState {
    /// The number of this request within its pool.
    pub closed spec fn request_id(self) -> u64 {
        self.request_id
    }

    /// The URLs tried so far.
    pub closed spec fn tried(self) -> Set<Seq<char>> {
        self.tried@
    }

    /// The number of attempts made so far.
    pub closed spec fn attempts(self) -> nat {
        self.attempts as nat
    }

    /// The message of the last failed attempt.
    pub closed spec fn last_error(self) -> Option<String> {
        self.last_error
    }

    /// The positions of the endpoints attempted so far, in the order of the
    /// attempts.
    pub closed spec fn attempted(self) -> Seq<int> {
        self.attempted@
    }

    /// What holds of a request of a pool with these endpoints: every attempt
    /// went to another endpoint, and the URLs tried are those of the endpoints
    /// attempted.
    pub open spec fn wf(self, endpoints: Seq<RpcEndpoint>) -> bool {
        &&& self.attempted().len() == self.attempts()
        &&& self.attempts() <= endpoints.len()
        &&& forall|k: int|
            0 <= k < self.attempted().len() ==> 0 <= #[trigger] self.attempted()[k] < endpoints.len()
        &&& forall|k1: int, k2: int|
            0 <= k1 < k2 < self.attempted().len() ==> self.attempted()[k1] != self.attempted()[k2]
        &&& forall|url: Seq<char>|
            self.tried().contains(url) <==> exists|k: int|
                0 <= k < self.attempted().len() && endpoints[#[trigger] self.attempted()[k]].url@
                    == url
    }

    /// The number of this request within its pool.
    pub fn id(&self) -> (r: u64)
        ensures
            r == self.request_id(),
    {
        self.request_id
    }

    /// The number of attempts made so far.
    pub fn attempt_count(&self) -> (r: usize)
        ensures
            r == self.attempts(),
    {
        self.attempts
    }
}

/// The message that ends a request for which every endpoint failed.
pub open spec fn exhausted_message(last_error: Option<String>) -> Seq<char> {
    match last_error {
        Some(e) => e@,
        None => "Unknown error"@,
    }
}

/// The message recorded for an attempt that ran into the request timeout.
pub open spec fn timeout_message(millis: u128) -> Seq<char> {
    "Request timeout after "@ + decimal(millis as nat) + "ms"@
}

/// A list of distinct positions below `n` that is shorter than `n` misses
/// one of the positions.
proof fn lemma_some_position_is_free(positions: Seq<int>, n: int)
    requires
        positions.len() < n,
        forall|k: int| 0 <= k < positions.len() ==> 0 <= #[trigger] positions[k] < n,
        forall|k1: int, k2: int|
            0 <= k1 < k2 < positions.len() ==> positions[k1] != positions[k2],
    ensures
        exists|p: int| 0 <= p < n && !positions.contains(p),
    decreases n,
{
    if positions.contains(n - 1) {
        let at = choose|k: int| 0 <= k < positions.len() && positions[k] == n - 1;
        let rest = positions.remove(at);
        assert forall|k: int| 0 <= k < rest.len() implies 0 <= #[trigger] rest[k] < n - 1 by {
            if k < at {
                assert(rest[k] == positions[k]);
            } else {
                assert(rest[k] == positions[k + 1]);
            }
        }
        assert forall|k1: int, k2: int| 0 <= k1 < k2 < rest.len() implies rest[k1] != rest[k2] by {
            let a = if k1 < at {
                k1
            } else {
                k1 + 1
            };
            let b = if k2 < at {
                k2
            } else {
                k2 + 1
            };
            assert(rest[k1] == positions[a] && rest[k2] == positions[b]);
        }
        lemma_some_position_is_free(rest, n - 1);
        let p = choose|p: int| 0 <= p < n - 1 && !rest.contains(p);
        if positions.contains(p) {
            let k = choose|k: int| 0 <= k < positions.len() && positions[k] == p;
            if k < at {
                assert(rest[k] == p);
            } else {
                assert(rest[k - 1] == p);
            }
            assert(false);
        }
    } else {
        assert(0 <= n - 1 < n && !positions.contains(n - 1));
    }
}

impl<S: SelectionStrategy> RpcPool<S> {
    /// What holds of every pool (see `pool_wf`).
    pub open spec fn wf(&self) -> bool {
        pool_wf(self@)
    }

    /// The strategy of the pool, as it stands.
    pub closed spec fn strategy(&self) -> S {
        self.strategy
    }

    /// Create a pool. Duplicate URLs are dropped, the first occurrence wins;
    /// the endpoints are sorted by priority, equal priorities in the order
    /// given; every endpoint starts healthy with empty statistics. A
    /// configuration without endpoints is refused.
    pub fn new(config: RpcPoolConfig<S>) -> (r: Result<Self, RpcPoolError>)
        ensures
            config.endpoints@.len() == 0 <==> r is Err,
            r matches Err(e) ==> e == RpcPoolError::NoEndpointsConfigured,
            r matches Ok(pool) ==> {
                &&& pool.wf()
                &&& pool.strategy() == config.strategy
                &&& pool@.endpoints == pool_order(config.endpoints@)
                &&& pool@.endpoints.len() <= config.endpoints@.len()
                &&& forall|i: int|
                    0 <= i < pool@.endpoints.len() ==> pool@.stats[(
                    #[trigger] pool@.endpoints[i]).url@] == EndpointStats::spec_new(
                        pool@.endpoints[i],
                    )
                &&& pool@.max_consecutive_errors == config.max_consecutive_errors
                &&& pool@.retry_delay == config.retry_delay
                &&& pool@.health_check_interval == config.health_check_interval
                &&& pool@.request_timeout == config.request_timeout
                &&& pool@.health_check_timeout == config.health_check_timeout
                &&& pool@.total_requests == 0
                &&& pool@.failovers == 0
                &&& !pool@.shutdown
            },
    {
        if config.endpoints.len() == 0 {
            return Err(RpcPoolError::NoEndpointsConfigured);
        }
        let unique = remove_duplicate_urls(&config.endpoints);
        let endpoints = sort_endpoints(&unique);
        proof {
            lemma_pool_order(config.endpoints@);
        }
        let mut stats = stats_map_new();
        let mut i: usize = 0;
        while i < endpoints.len()
            invariant
                i <= endpoints@.len(),
                distinct_urls(endpoints@),
                forall|url: Seq<char>| #[trigger]
                    stats_entries(stats).contains_key(url) <==> has_url(endpoints@.take(i as int), url),
                forall|j: int|
                    0 <= j < i ==> stats_entries(stats)[(#[trigger] endpoints@[j]).url@]
                        == EndpointStats::spec_new(endpoints@[j]),
            decreases endpoints@.len() - i,
        {
            let e = &endpoints[i];
            stats_map_insert(&mut stats, e.url.clone(), EndpointStats::new(e));
            proof {
                assert forall|url: Seq<char>| #[trigger]
                    stats_entries(stats).contains_key(url) <==> has_url(
                        endpoints@.take(i + 1),
                        url,
                    ) by {
                    if has_url(endpoints@.take(i + 1), url) {
                        let j = choose|j: int|
                            0 <= j < i + 1 && (#[trigger] endpoints@.take(i + 1)[j]).url@ == url;
                        if j < i {
                            assert(endpoints@.take(i as int)[j].url@ == url);
                        }
                    }
                    if has_url(endpoints@.take(i as int), url) {
                        let j = choose|j: int|
                            0 <= j < i && (#[trigger] endpoints@.take(i as int)[j]).url@ == url;
                        assert(endpoints@.take(i + 1)[j].url@ == url);
                    }
                    if url == e.url@ {
                        assert(endpoints@.take(i + 1)[i as int].url@ == url);
                    }
                }
                assert forall|j: int| 0 <= j < i + 1 implies stats_entries(stats)[(
                #[trigger] endpoints@[j]).url@] == EndpointStats::spec_new(endpoints@[j]) by {
                    if j < i {
                        assert(endpoints@[j].url@ != endpoints@[i as int].url@);
                    }
                }
            }
            i = i + 1;
        }
        let pool = RpcPool {
            endpoints,
            stats,
            strategy: config.strategy,
            max_consecutive_errors: config.max_consecutive_errors,
            retry_delay: config.retry_delay,
            health_check_interval: config.health_check_interval,
            request_timeout: config.request_timeout,
            health_check_timeout: config.health_check_timeout,
            total_requests: 0,
            failovers: 0,
            shutdown: false,
        };
        proof {
            assert(pool@.endpoints.take(pool@.endpoints.len() as int) =~= pool@.endpoints);
            assert forall|url: Seq<char>| #[trigger]
                pool@.stats.contains_key(url) implies pool@.stats[url].wf() && pool@.stats[url].url@
                == url by {
                let j = choose|j: int|
                    0 <= j < pool@.endpoints.len() && (#[trigger] pool@.endpoints[j]).url@ == url;
                assert(pool@.stats[pool@.endpoints[j].url@] == EndpointStats::spec_new(
                    pool@.endpoints[j],
                ));
            }
        }
        Ok(pool)
    }

    /// The configured request timeout.
    pub fn request_timeout(&self) -> (r: Duration)
        ensures
            r == self@.request_timeout,
    {
        self.request_timeout
    }

    /// The configured health check timeout.
    pub fn health_check_timeout(&self) -> (r: Duration)
        ensures
            r == self@.health_check_timeout,
    {
        self.health_check_timeout
    }

    /// The configured interval between health checks.
    pub fn health_check_interval(&self) -> (r: Duration)
        ensures
            r == self@.health_check_interval,
    {
        self.health_check_interval
    }

    /// Whether the pool has been shut down.
    pub fn is_shutdown(&self) -> (r: bool)
        ensures
            r == self@.shutdown,
    {
        self.shutdown
    }

    /// Shut the pool down: from now on no request is begun and no attempt is
    /// handed out. Shutting down twice changes nothing.
    pub fn shutdown(&mut self)
        ensures
            final(self)@ == (PoolView { shutdown: true, ..old(self)@ }),
            final(self).strategy() == old(self).strategy(),
    {
        self.shutdown = true;
    }

    /// Number of endpoints.
    pub fn endpoint_count(&self) -> (r: usize)
        ensures
            r == self@.endpoints.len(),
    {
        self.endpoints.len()
    }

    /// The URLs of all endpoints, in the order of the pool.
    pub fn get_all_urls(&self) -> (urls: Vec<String>)
        ensures
            urls@.len() == self@.endpoints.len(),
            forall|i: int| 0 <= i < urls@.len() ==> (#[trigger] urls@[i]) == self@.endpoints[i].url,
    {
        let mut urls: Vec<String> = Vec::new();
        let mut i: usize = 0;
        while i < self.endpoints.len()
            invariant
                i <= self.endpoints@.len(),
                urls@.len() == i,
                forall|j: int| 0 <= j < i ==> (#[trigger] urls@[j]) == self.endpoints@[j].url,
            decreases self.endpoints@.len() - i,
        {
            urls.push(self.endpoints[i].url.clone());
            i = i + 1;
        }
        urls
    }

    /// A copy of the statistics of the endpoint with this URL.
    pub fn endpoint_stats(&self, url: &str) -> (found: Option<EndpointStats>)
        ensures
            match found {
                Some(s) => self@.stats.contains_key(url@) && s == self@.stats[url@],
                None => !self@.stats.contains_key(url@),
            },
    {
        stats_map_get(&self.stats, url)
    }

    /// A copy of the statistics of all endpoints, for a strategy to read.
    pub fn collect_stats_snapshot(&self) -> (snapshot: StatsSnapshot)
        requires
            self.wf(),
        ensures
            snapshot@ == self@.stats,
    {
        let mut snapshot = StatsSnapshot::new();
        let mut i: usize = 0;
        while i < self.endpoints.len()
            invariant
                i <= self.endpoints@.len(),
                self.wf(),
                forall|url: Seq<char>| #[trigger]
                    snapshot@.contains_key(url) <==> has_url(self.endpoints@.take(i as int), url),
                forall|url: Seq<char>| #[trigger]
                    snapshot@.contains_key(url) ==> snapshot@[url] == self@.stats[url],
            decreases self.endpoints@.len() - i,
        {
            let e = &self.endpoints[i];
            proof {
                assert(has_url(self@.endpoints, e.url@));
            }
            match stats_map_get(&self.stats, e.url.as_str()) {
                Some(s) => {
                    snapshot.insert(e.url.clone(), s);
                },
                None => {},
            }
            proof {
                assert forall|url: Seq<char>| #[trigger]
                    snapshot@.contains_key(url) <==> has_url(
                        self.endpoints@.take(i + 1),
                        url,
                    ) by {
                    if has_url(self.endpoints@.take(i + 1), url) {
                        let j = choose|j: int|
                            0 <= j < i + 1 && (#[trigger] self.endpoints@.take(i + 1)[j]).url@ == url;
                        if j < i {
                            assert(self.endpoints@.take(i as int)[j].url@ == url);
                        }
                    }
                    if has_url(self.endpoints@.take(i as int), url) {
                        let j = choose|j: int|
                            0 <= j < i && (#[trigger] self.endpoints@.take(i as int)[j]).url@ == url;
                        assert(self.endpoints@.take(i + 1)[j].url@ == url);
                    }
                    if url == e.url@ {
                        assert(self.endpoints@.take(i + 1)[i as int].url@ == url);
                    }
                }
            }
            i = i + 1;
        }
        proof {
            assert(self.endpoints@.take(self.endpoints@.len() as int) =~= self.endpoints@);
            assert(snapshot@ =~= self@.stats);
        }
        snapshot
    }

    /// Store statistics under their own URL, in place of those that were
    /// there.
    fn store_stats(&mut self, s: EndpointStats)
        requires
            old(self).wf(),
            old(self)@.stats.contains_key(s.url@),
            s.wf(),
        ensures
            final(self)@ == (PoolView { stats: old(self)@.stats.insert(s.url@, s), ..old(self)@ }),
            final(self).wf(),
            final(self).strategy() == old(self).strategy(),
    {
        let key = s.url.clone();
        stats_map_insert(&mut self.stats, key, s);
    }

    /// The URL of the endpoint that the strategy selects when nothing is
    /// excluded. Strategies that keep a state move on by this selection.
    pub fn get_current_url(&mut self) -> (url: Option<String>)
        requires
            old(self).wf(),
        ensures
            final(self)@ == old(self)@,
            url matches Some(u) && has_url(final(self)@.endpoints, u@),
            exists|i: int|
                {
                    &&& 0 <= i < old(self)@.endpoints.len()
                    &&& #[trigger] old(self).strategy().may_select(
                        old(self)@.endpoints,
                        old(self)@.stats,
                        Set::empty(),
                        Some(i),
                    )
                    &&& url == Some(old(self)@.endpoints[i].url)
                },
    {
        let snapshot = self.collect_stats_snapshot();
        let exclude = UrlSet::new();
        let selected = self.strategy.select(self.endpoints.as_slice(), &snapshot, &exclude);
        proof {
            assert(is_candidate(self.endpoints@, exclude@, 0));
            let choice = choose|choice: Option<int>|
                {
                    &&& #[trigger] old(self).strategy().may_select(
                        self.endpoints@,
                        snapshot@,
                        exclude@,
                        choice,
                    )
                    &&& valid_choice(self.endpoints@, exclude@, choice)
                    &&& selected == chosen(self.endpoints@, choice)
                };
            assert(choice is Some);
            assert(exclude@ =~= Set::<Seq<char>>::empty());
        }
        match selected {
            Some(e) => Some(e.url.clone()),
            None => None,
        }
    }

    /// Manually mark an endpoint as unhealthy, as of now. An unknown URL
    /// changes nothing.
    pub fn mark_unhealthy(&mut self, url: &str)
        requires
            old(self).wf(),
        ensures
            final(self).wf(),
            final(self).strategy() == old(self).strategy(),
            !old(self)@.stats.contains_key(url@) ==> final(self)@ == old(self)@,
            old(self)@.stats.contains_key(url@) ==> {
                &&& final(self)@.stats[url@].last_error_time is Some
                &&& final(self)@ == (PoolView {
                    stats: old(self)@.stats.insert(
                        url@,
                        old(self)@.stats[url@].after_mark_unhealthy(
                            final(self)@.stats[url@].last_error_time->0,
                        ),
                    ),
                    ..old(self)@
                })
            },
    {
        match stats_map_get(&self.stats, url) {
            Some(s) => {
                let mut s = s;
                s.is_healthy = false;
                s.last_error_time = Some(clock_now());
                self.store_stats(s);
            },
            None => {},
        }
    }

    /// Counts of healthy and unhealthy endpoints.
    pub fn health_summary(&self) -> (summary: HealthSummary)
        requires
            self.wf(),
        ensures
            summary.total == self@.endpoints.len(),
            summary.healthy == healthy_count(self@, self@.endpoints.len()),
            summary.healthy + summary.unhealthy == summary.total,
    {
        let mut healthy: usize = 0;
        let mut unhealthy: usize = 0;
        let mut i: usize = 0;
        while i < self.endpoints.len()
            invariant
                i <= self.endpoints@.len(),
                healthy + unhealthy == i,
                healthy == healthy_count(self@, i as nat),
            decreases self.endpoints@.len() - i,
        {
            let is_healthy = match stats_map_get(&self.stats, self.endpoints[i].url.as_str()) {
                Some(s) => s.is_healthy,
                None => false,
            };
            if is_healthy {
                healthy = healthy + 1;
            } else {
                unhealthy = unhealthy + 1;
            }
            i = i + 1;
        }
        HealthSummary { healthy, unhealthy, total: self.endpoints.len() }
    }

    /// Begin a request. A pool that was shut down refuses; otherwise the
    /// request is counted and gets the count as its number.
    pub fn begin_request(&mut self) -> (r: Result<RequestState, RpcPoolError>)
        requires
            old(self).wf(),
        ensures
            final(self).wf(),
            final(self).strategy() == old(self).strategy(),
            old(self)@.shutdown <==> r is Err,
            r matches Err(e) ==> e == RpcPoolError::PoolShutdown && final(self)@ == old(self)@,
            r matches Ok(req) ==> {
                &&& final(self)@ == (PoolView {
                    total_requests: counter_after(old(self)@.total_requests, 1),
                    ..old(self)@
                })
                &&& req.request_id() == final(self)@.total_requests
                &&& req.tried() == Set::<Seq<char>>::empty()
                &&& req.attempts() == 0
                &&& req.attempted() == Seq::<int>::empty()
                &&& req.last_error() is None
                &&& req.wf(final(self)@.endpoints)
            },
    {
        if self.shutdown {
            return Err(RpcPoolError::PoolShutdown);
        }
        if self.total_requests < u64::MAX {
            self.total_requests = self.total_requests + 1;
        }
        Ok(
            RequestState {
                request_id: self.total_requests,
                tried: UrlSet::new(),
                attempts: 0,
                last_error: None,
                attempted: Ghost(Seq::empty()),
            },
        )
    }

    /// Decide the next step of a request: after a shutdown the request ends
    /// with `PoolShutdown`; when every endpoint has been tried it ends with
    /// `AllEndpointsFailed` and the last error; otherwise the strategy picks
    /// an endpoint that this request has not tried, which is marked as tried
    /// and handed out.
    pub fn next_attempt(&mut self, req: &mut RequestState) -> (step: RequestStep)
        requires
            old(self).wf(),
            old(req).wf(old(self)@.endpoints),
        ensures
            final(self)@ == old(self)@,
            final(req).wf(final(self)@.endpoints),
            final(req).request_id() == old(req).request_id(),
            final(req).last_error() == old(req).last_error(),
            old(self)@.shutdown <==> step == RequestStep::Finished(RpcPoolError::PoolShutdown),
            step is Finished ==> {
                &&& final(req).tried() == old(req).tried()
                &&& final(req).attempts() == old(req).attempts()
                &&& final(req).attempted() == old(req).attempted()
            },
            !old(self)@.shutdown ==> (step is Finished <==> old(req).attempts() == old(
                self,
            )@.endpoints.len()),
            !old(self)@.shutdown && step is Finished ==> (step matches RequestStep::Finished(
                RpcPoolError::AllEndpointsFailed(msg),
            ) && msg@ == exhausted_message(old(req).last_error())),
            step matches RequestStep::Attempt(e) ==> exists|i: int|
                {
                    &&& is_candidate(old(self)@.endpoints, old(req).tried(), i)
                    &&& #[trigger] old(self)@.endpoints[i] == e
                    &&& old(self).strategy().may_select(
                        old(self)@.endpoints,
                        old(self)@.stats,
                        old(req).tried(),
                        Some(i),
                    )
                    &&& final(req).tried() == old(req).tried().insert(e.url@)
                    &&& final(req).attempts() == old(req).attempts() + 1
                    &&& final(req).attempted() == old(req).attempted().push(i)
                },
            step is Finished ==> final(self).strategy() == old(self).strategy(),
    {
        if self.shutdown {
            return RequestStep::Finished(RpcPoolError::PoolShutdown);
        }
        if req.attempts >= self.endpoints.len() {
            return RequestStep::Finished(RpcPoolError::AllEndpointsFailed(exhausted_text(&req.last_error)));
        }
        proof {
            let free = {
                lemma_some_position_is_free(req.attempted(), self.endpoints@.len() as int);
                choose|p: int| 0 <= p < self.endpoints@.len() && !req.attempted().contains(p)
            };
            if req.tried().contains(self.endpoints@[free].url@) {
                let k = choose|k: int|
                    0 <= k < req.attempted().len() && self.endpoints@[#[trigger] req.attempted()[k]].url@
                        == self.endpoints@[free].url@;
                assert(req.attempted()[k] != free);
                assert(false);
            }
            assert(is_candidate(self.endpoints@, req.tried(), free));
        }
        let snapshot = self.collect_stats_snapshot();
        let selected = self.strategy.select(self.endpoints.as_slice(), &snapshot, &req.tried);
        match selected {
            None => {
                proof {
                    assert(false);
                }
                RequestStep::Finished(RpcPoolError::AllEndpointsFailed(exhausted_text(&req.last_error)))
            },
            Some(e) => {
                let ghost choice = choose|choice: Option<int>|
                    {
                        &&& #[trigger] old(self).strategy().may_select(
                            self.endpoints@,
                            snapshot@,
                            req.tried@,
                            choice,
                        )
                        &&& valid_choice(self.endpoints@, req.tried@, choice)
                        &&& selected == chosen(self.endpoints@, choice)
                    };
                let ghost i = choice->0;
                let ghost old_req = *req;
                req.tried.insert(e.url.clone());
                req.attempts = req.attempts + 1;
                req.attempted = Ghost(req.attempted@.push(i));
                proof {
                    assert forall|k1: int, k2: int|
                        0 <= k1 < k2 < req.attempted().len() implies req.attempted()[k1]
                        != req.attempted()[k2] by {
                        if k2 == req.attempted().len() - 1 {
                            if old_req.attempted()[k1] == i {
                                assert(old_req.tried().contains(self.endpoints@[i].url@));
                            }
                        }
                    }
                    assert forall|url: Seq<char>|
                        req.tried().contains(url) <==> exists|k: int|
                            0 <= k < req.attempted().len() && self.endpoints@[#[trigger] req.attempted()[k]].url@
                                == url by {
                        if old_req.tried().contains(url) {
                            let k = choose|k: int|
                                0 <= k < old_req.attempted().len() && self.endpoints@[#[trigger] old_req.attempted()[k]].url@
                                    == url;
                            assert(req.attempted()[k] == old_req.attempted()[k]);
                        }
                        if url == e.url@ {
                            assert(req.attempted()[req.attempted().len() - 1] == i);
                        }
                        if exists|k: int|
                            0 <= k < req.attempted().len() && self.endpoints@[#[trigger] req.attempted()[k]].url@
                                == url {
                            let k = choose|k: int|
                                0 <= k < req.attempted().len() && self.endpoints@[#[trigger] req.attempted()[k]].url@
                                    == url;
                            if k < old_req.attempted().len() {
                                assert(old_req.attempted()[k] == req.attempted()[k]);
                            }
                        }
                    }
                }
                RequestStep::Attempt(e.duplicate())
            },
        }
    }

    /// Record that the attempt on an endpoint succeeded after `latency_ms`
    /// milliseconds. An unknown URL changes nothing.
    pub fn record_attempt_success(&mut self, url: &str, latency_ms: u64)
        requires
            old(self).wf(),
        ensures
            final(self).wf(),
            final(self).strategy() == old(self).strategy(),
            !old(self)@.stats.contains_key(url@) ==> final(self)@ == old(self)@,
            old(self)@.stats.contains_key(url@) ==> final(self)@ == (PoolView {
                stats: old(self)@.stats.insert(url@, old(self)@.stats[url@].after_success(latency_ms)),
                ..old(self)@
            }),
    {
        match stats_map_get(&self.stats, url) {
            Some(s) => {
                let mut s = s;
                s.record_success(latency_ms);
                self.store_stats(s);
            },
            None => {},
        }
    }

    /// Record that the attempt on an endpoint failed with this message, now.
    /// The message is stored truncated, with the statistics of the endpoint
    /// and as the last error of the request, and the failover counter goes
    /// up by one. Returns whether the endpoint was quarantined by this
    /// failure.
    pub fn record_attempt_failure(&mut self, req: &mut RequestState, url: &str, error: &str) -> (quarantined:
        bool)
        requires
            old(self).wf(),
        ensures
            final(self).wf(),
            final(self).strategy() == old(self).strategy(),
            final(req).request_id() == old(req).request_id(),
            final(req).tried() == old(req).tried(),
            final(req).attempts() == old(req).attempts(),
            final(req).attempted() == old(req).attempted(),
            final(req).last_error() matches Some(m) && m@ == truncated_message(error@),
            final(self)@.failovers == counter_after(old(self)@.failovers, 1),
            !old(self)@.stats.contains_key(url@) ==> !quarantined && final(self)@ == (PoolView {
                failovers: final(self)@.failovers,
                ..old(self)@
            }),
            old(self)@.stats.contains_key(url@) ==> {
                &&& quarantined == old(self)@.stats[url@].failure_quarantines(
                    old(self)@.max_consecutive_errors,
                )
                &&& final(self)@.stats[url@].last_error matches Some(m) && m@ == truncated_message(
                    error@,
                )
                &&& final(self)@.stats[url@].last_error_time is Some
                &&& final(self)@ == (PoolView {
                    failovers: final(self)@.failovers,
                    stats: old(self)@.stats.insert(
                        url@,
                        old(self)@.stats[url@].after_failure(
                            final(self)@.stats[url@].last_error->0,
                            old(self)@.max_consecutive_errors,
                            final(self)@.stats[url@].last_error_time->0,
                        ),
                    ),
                    ..old(self)@
                })
            },
    {
        let message = truncate_error_message(error);
        self.record_failure_message(req, url, message)
    }

    /// Record that the attempt on an endpoint ran into the request timeout.
    /// It counts as a failure with the message "Request timeout after Nms".
    pub fn record_attempt_timeout(&mut self, req: &mut RequestState, url: &str) -> (quarantined: bool)
        requires
            old(self).wf(),
        ensures
            final(self).wf(),
            final(self).strategy() == old(self).strategy(),
            final(req).request_id() == old(req).request_id(),
            final(req).tried() == old(req).tried(),
            final(req).attempts() == old(req).attempts(),
            final(req).attempted() == old(req).attempted(),
            final(req).last_error() matches Some(m) && m@ == timeout_message(
                duration_millis(old(self)@.request_timeout),
            ),
            final(self)@.failovers == counter_after(old(self)@.failovers, 1),
            !old(self)@.stats.contains_key(url@) ==> !quarantined && final(self)@ == (PoolView {
                failovers: final(self)@.failovers,
                ..old(self)@
            }),
            old(self)@.stats.contains_key(url@) ==> {
                &&& quarantined == old(self)@.stats[url@].failure_quarantines(
                    old(self)@.max_consecutive_errors,
                )
                &&& final(self)@.stats[url@].last_error matches Some(m) && m@ == timeout_message(
                    duration_millis(old(self)@.request_timeout),
                )
                &&& final(self)@.stats[url@].last_error_time is Some
                &&& final(self)@ == (PoolView {
                    failovers: final(self)@.failovers,
                    stats: old(self)@.stats.insert(
                        url@,
                        old(self)@.stats[url@].after_failure(
                            final(self)@.stats[url@].last_error->0,
                            old(self)@.max_consecutive_errors,
                            final(self)@.stats[url@].last_error_time->0,
                        ),
                    ),
                    ..old(self)@
                })
            },
    {
        let digits = decimal_string(self.request_timeout.as_millis());
        let message = String::from_str("Request timeout after ").concat(digits.as_str()).concat("ms");
        self.record_failure_message(req, url, message)
    }

    /// Record a failed attempt with the message as it is.
    fn record_failure_message(&mut self, req: &mut RequestState, url: &str, message: String) -> (quarantined:
        bool)
        requires
            old(self).wf(),
        ensures
            final(self).wf(),
            final(self).strategy() == old(self).strategy(),
            final(req).request_id() == old(req).request_id(),
            final(req).tried() == old(req).tried(),
            final(req).attempts() == old(req).attempts(),
            final(req).attempted() == old(req).attempted(),
            final(req).last_error() matches Some(m) && m@ == message@,
            final(self)@.failovers == counter_after(old(self)@.failovers, 1),
            !old(self)@.stats.contains_key(url@) ==> !quarantined && final(self)@ == (PoolView {
                failovers: final(self)@.failovers,
                ..old(self)@
            }),
            old(self)@.stats.contains_key(url@) ==> {
                &&& quarantined == old(self)@.stats[url@].failure_quarantines(
                    old(self)@.max_consecutive_errors,
                )
                &&& final(self)@.stats[url@].last_error matches Some(m) && m@ == message@
                &&& final(self)@.stats[url@].last_error_time is Some
                &&& final(self)@ == (PoolView {
                    failovers: final(self)@.failovers,
                    stats: old(self)@.stats.insert(
                        url@,
                        old(self)@.stats[url@].after_failure(
                            final(self)@.stats[url@].last_error->0,
                            old(self)@.max_consecutive_errors,
                            final(self)@.stats[url@].last_error_time->0,
                        ),
                    ),
                    ..old(self)@
                })
            },
    {
        let quarantined = match stats_map_get(&self.stats, url) {
            Some(s) => {
                let mut s = s;
                let q = s.record_failure(message.clone(), self.max_consecutive_errors);
                self.store_stats(s);
                q
            },
            None => false,
        };
        if self.failovers < u64::MAX {
            self.failovers = self.failovers + 1;
        }
        req.last_error = Some(message);
        quarantined
    }
}

/// What one round of health probes did.
#[derive(Debug, Clone, Copy)]
pub struct HealthCheckReport {
    /// Number of endpoints that were due for a probe.
    pub checked: usize,
    /// Number of endpoints that a probe found recovered.
    pub recovered: usize,
}

/// Milliseconds read from the clock, as a latency: values beyond the range
/// of the statistics count as the largest one.
pub fn latency_from_millis(millis: u128) -> (latency_ms: u64)
    ensures
        latency_ms == if millis > u64::MAX {
            u64::MAX
        } else {
            millis as u64
        },
{
    if millis > u64::MAX as u128 {
        u64::MAX
    } else {
        millis as u64
    }
}

/// The message recorded for an endpoint whose URL does not parse.
pub open spec fn invalid_url_message(e: url::ParseError) -> Seq<char> {
    "Invalid URL: "@ + parse_error_description(e)
}

/// The error that reports a URL that does not parse.
pub fn invalid_url(e: url::ParseError) -> (r: RpcPoolError)
    ensures
        r matches RpcPoolError::InvalidUrl(m) && m@ == parse_error_description(e),
{
    RpcPoolError::InvalidUrl(parse_error_text(&e))
}

/// Whether the statistics of a pool differ from earlier ones only by one
/// recorded failure under each of the URLs tried.
pub open spec fn failures_recorded(
    before: Map<Seq<char>, EndpointStats>,
    after: Map<Seq<char>, EndpointStats>,
    tried: Set<Seq<char>>,
    max_consecutive_errors: u32,
) -> bool {
    &&& forall|url: Seq<char>| #[trigger] after.contains_key(url) <==> before.contains_key(url)
    &&& forall|url: Seq<char>| #[trigger]
        after.contains_key(url) && !tried.contains(url) ==> after[url] == before[url]
    &&& forall|url: Seq<char>| #[trigger]
        after.contains_key(url) && tried.contains(url) ==> {
            &&& after[url].last_error is Some
            &&& after[url].last_error_time is Some
            &&& after[url] == before[url].after_failure(
                after[url].last_error->0,
                max_consecutive_errors,
                after[url].last_error_time->0,
            )
        }
}

/// Whether a pool differs from an earlier state of it by one request that
/// failed on the endpoints with the URLs `failed` and then succeeded on the
/// endpoint with the URL `url`.
pub open spec fn success_recorded(
    before: PoolView,
    after: PoolView,
    url: Seq<char>,
    failed: Set<Seq<char>>,
) -> bool {
    &&& has_url(before.endpoints, url)
    &&& !failed.contains(url)
    &&& failed.finite()
    &&& failed.len() < before.endpoints.len()
    &&& after.failovers == counter_after(before.failovers, failed.len() as int)
    &&& failures_recorded(
        before.stats,
        after.stats.insert(url, before.stats[url]),
        failed,
        before.max_consecutive_errors,
    )
    &&& exists|latency_ms: u64|
        after.stats[url] == #[trigger] before.stats[url].after_success(latency_ms)
}

/// The URLs of the endpoints that the first `k` attempts of a run went to.
pub open spec fn tried_urls(endpoints: Seq<RpcEndpoint>, order: Seq<int>, k: int) -> Set<
    Seq<char>,
> {
    Set::new(
        |url: Seq<char>|
            exists|j: int| 0 <= j < k && j < order.len() && endpoints[#[trigger] order[j]].url@ == url,
    )
}

/// The URL of the endpoint that attempt `k` of a run went to.
pub open spec fn url_at(endpoints: Seq<RpcEndpoint>, order: Seq<int>, k: int) -> Seq<char> {
    endpoints[order[k]].url@
}

/// The message that was recorded for attempt `k` of a run.
pub open spec fn recorded_message(
    endpoints: Seq<RpcEndpoint>,
    order: Seq<int>,
    moments: Seq<Map<Seq<char>, EndpointStats>>,
    k: int,
) -> Seq<char> {
    moments[k + 1][url_at(endpoints, order, k)].last_error->0@
}

/// Whether the statistics `after` are the statistics `before` with one
/// failure recorded for the endpoint with this URL.
pub open spec fn failure_step(
    before: Map<Seq<char>, EndpointStats>,
    after: Map<Seq<char>, EndpointStats>,
    url: Seq<char>,
    max_consecutive_errors: u32,
) -> bool {
    &&& after[url].last_error is Some
    &&& after[url].last_error_time is Some
    &&& after == before.insert(
        url,
        before[url].after_failure(
            after[url].last_error->0,
            max_consecutive_errors,
            after[url].last_error_time->0,
        ),
    )
}

/// Whether the statistics `after` are the statistics `before` with one
/// success recorded for the endpoint with this URL.
pub open spec fn success_step(
    before: Map<Seq<char>, EndpointStats>,
    after: Map<Seq<char>, EndpointStats>,
    url: Seq<char>,
) -> bool {
    exists|latency_ms: u64| after == before.insert(url, #[trigger] before[url].after_success(latency_ms))
}

/// Whether attempt `k` of a run was recorded on the endpoint that the
/// attempt went to: as a success if it is the last attempt of a run that
/// succeeded, as a failure otherwise.
pub open spec fn step_recorded(
    before: PoolView,
    order: Seq<int>,
    moments: Seq<Map<Seq<char>, EndpointStats>>,
    k: int,
    succeeded: bool,
) -> bool {
    if succeeded && k == order.len() - 1 {
        success_step(moments[k], moments[k + 1], url_at(before.endpoints, order, k))
    } else {
        failure_step(
            moments[k],
            moments[k + 1],
            url_at(before.endpoints, order, k),
            before.max_consecutive_errors,
        )
    }
}

/// Whether attempt `k` of a run went to an endpoint that the strategy, as it
/// stood then, may select from the statistics of that moment and the URLs
/// tried before.
pub open spec fn step_selected<S: SelectionStrategy>(
    before: PoolView,
    order: Seq<int>,
    states: Seq<S>,
    moments: Seq<Map<Seq<char>, EndpointStats>>,
    k: int,
) -> bool {
    states[k].may_select(
        before.endpoints,
        moments[k],
        tried_urls(before.endpoints, order, k),
        Some(order[k]),
    )
}

/// The run of one request through a pool. `order` holds the positions of
/// the endpoints attempted, one after the other and each once; `states` the
/// strategy as it stood before each attempt, the first being the strategy
/// of the pool; `moments` the statistics before each attempt and after the
/// last. Every attempt went to an endpoint that the strategy might select at
/// that moment. Every attempt but the last failed and was recorded as a
/// failure; the last succeeded if `succeeded`, and otherwise failed as the
/// last of all endpoints. Each failure counts as one failover.
pub open spec fn request_trace<S: SelectionStrategy>(
    first: S,
    before: PoolView,
    after: PoolView,
    order: Seq<int>,
    states: Seq<S>,
    moments: Seq<Map<Seq<char>, EndpointStats>>,
    succeeded: bool,
) -> bool {
    let n = order.len() as int;
    &&& 1 <= n <= before.endpoints.len()
    &&& !succeeded ==> n == before.endpoints.len()
    &&& states.len() == n
    &&& moments.len() == n + 1
    &&& states[0] == first
    &&& moments[0] == before.stats
    &&& moments[n] == after.stats
    &&& after.failovers == counter_after(
        before.failovers,
        if succeeded {
            n - 1
        } else {
            n
        },
    )
    &&& forall|k: int| 0 <= k < n ==> 0 <= #[trigger] order[k] < before.endpoints.len()
    &&& forall|k1: int, k2: int| 0 <= k1 < k2 < n ==> order[k1] != order[k2]
    &&& forall|k: int| 0 <= k < n ==> #[trigger] step_selected(before, order, states, moments, k)
    &&& forall|k: int|
        0 <= k < n ==> #[trigger] step_recorded(before, order, moments, k, succeeded)
}

/// What the operation did in the run of a request: it failed on every
/// attempt but the last, with the message that was recorded; on the last it
/// returned the value of a successful request, or failed with the message
/// that a failed request hands back.
pub open spec fn operation_ran<T, F: Fn(String) -> Result<T, String>>(
    f: F,
    endpoints: Seq<RpcEndpoint>,
    order: Seq<int>,
    moments: Seq<Map<Seq<char>, EndpointStats>>,
    r: Result<T, RpcPoolError>,
) -> bool {
    let n = order.len() as int;
    &&& forall|k: int|
        0 <= k < n && !(r is Ok && k == n - 1) ==> op_failed(
            f,
            #[trigger] url_at(endpoints, order, k),
            recorded_message(endpoints, order, moments, k),
        )
    &&& r matches Ok(v) ==> exists|u: String| #[trigger]
        f.ensures((u,), Ok(v)) && u@ == url_at(endpoints, order, n - 1)
    &&& r is Err ==> (r matches Err(RpcPoolError::AllEndpointsFailed(msg)) && msg@
        == recorded_message(endpoints, order, moments, n - 1))
}

/// What one request does to a pool, given the strategy and the state
/// before and after. A pool that was shut down refuses with `PoolShutdown`
/// and stays as it is. Any other pool counts the request and goes through a
/// run of attempts (see `request_trace`), in which the operation did what
/// `operation_ran` says; the request succeeds if the last attempt did, and
/// fails with `AllEndpointsFailed` otherwise.
pub open spec fn request_made<T, F: Fn(String) -> Result<T, String>, S: SelectionStrategy>(
    f: F,
    strategy_before: S,
    before: PoolView,
    strategy_after: S,
    after: PoolView,
    r: Result<T, RpcPoolError>,
) -> bool {
    &&& (before.shutdown <==> r == Err::<T, RpcPoolError>(RpcPoolError::PoolShutdown))
    &&& before.shutdown ==> after == before && strategy_after == strategy_before
    &&& !before.shutdown ==> {
        &&& after == (PoolView {
            stats: after.stats,
            failovers: after.failovers,
            total_requests: counter_after(before.total_requests, 1),
            ..before
        })
        &&& exists|order: Seq<int>, states: Seq<S>, moments: Seq<Map<Seq<char>, EndpointStats>>|
            {
                &&& #[trigger] request_trace(
                    strategy_before,
                    before,
                    after,
                    order,
                    states,
                    moments,
                    r is Ok,
                )
                &&& operation_ran(f, before.endpoints, order, moments, r)
            }
    }
}

/// What one request that hands out parsed URLs does to a pool: as
/// `request_made`, with the operation as `parsed_operation_ran` says.
pub open spec fn parsed_request_made<
    T,
    F: Fn(url::Url) -> Result<T, String>,
    S: SelectionStrategy,
>(
    f: F,
    strategy_before: S,
    before: PoolView,
    strategy_after: S,
    after: PoolView,
    r: Result<T, RpcPoolError>,
) -> bool {
    &&& (before.shutdown <==> r == Err::<T, RpcPoolError>(RpcPoolError::PoolShutdown))
    &&& before.shutdown ==> after == before && strategy_after == strategy_before
    &&& !before.shutdown ==> {
        &&& after == (PoolView {
            stats: after.stats,
            failovers: after.failovers,
            total_requests: counter_after(before.total_requests, 1),
            ..before
        })
        &&& exists|order: Seq<int>, states: Seq<S>, moments: Seq<Map<Seq<char>, EndpointStats>>|
            {
                &&& #[trigger] request_trace(
                    strategy_before,
                    before,
                    after,
                    order,
                    states,
                    moments,
                    r is Ok,
                )
                &&& parsed_operation_ran(f, before.endpoints, order, moments, r)
            }
    }
}

/// A request made with a borrowed operation is a request made with the
/// operation itself.
pub proof fn lemma_request_made_by_ref<
    T,
    F: Fn(String) -> Result<T, String>,
    S: SelectionStrategy,
>(
    f: &F,
    strategy_before: S,
    before: PoolView,
    strategy_after: S,
    after: PoolView,
    r: Result<T, RpcPoolError>,
)
    requires
        request_made(f, strategy_before, before, strategy_after, after, r),
    ensures
        request_made(*f, strategy_before, before, strategy_after, after, r),
{
    if !before.shutdown {
        let (order, states, moments) = choose|
            order: Seq<int>,
            states: Seq<S>,
            moments: Seq<Map<Seq<char>, EndpointStats>>,
        |
            {
                &&& #[trigger] request_trace(
                    strategy_before,
                    before,
                    after,
                    order,
                    states,
                    moments,
                    r is Ok,
                )
                &&& operation_ran(f, before.endpoints, order, moments, r)
            };
        let endpoints = before.endpoints;
        assert forall|k: int|
            0 <= k < order.len() && !(r is Ok && k == order.len() - 1) implies op_failed(
            *f,
            #[trigger] url_at(endpoints, order, k),
            recorded_message(endpoints, order, moments, k),
        ) by {
            let url = url_at(endpoints, order, k);
            let recorded = recorded_message(endpoints, order, moments, k);
            assert(op_failed(f, url, recorded));
            let (u, m) = choose|u: String, m: String| #[trigger]
                f.ensures((u,), Err(m)) && u@ == url && recorded == truncated_message(m@);
            assert((*f).ensures((u,), Err(m)));
        }
        if r is Ok {
            let u = choose|u: String| #[trigger]
                f.ensures((u,), Ok::<T, String>(r->Ok_0)) && u@ == url_at(
                    endpoints,
                    order,
                    order.len() - 1,
                );
            assert((*f).ensures((u,), Ok::<T, String>(r->Ok_0)));
        }
        assert(operation_ran(*f, endpoints, order, moments, r));
    }
}

/// A request made with an operation that parses the URL and hands it on
/// is a request that hands out parsed URLs.
pub proof fn lemma_request_made_parsed<
    T,
    F: Fn(url::Url) -> Result<T, String>,
    G: Fn(String) -> Result<T, String>,
    S: SelectionStrategy,
>(
    f: F,
    op: G,
    strategy_before: S,
    before: PoolView,
    strategy_after: S,
    after: PoolView,
    r: Result<T, RpcPoolError>,
)
    requires
        forall|u: String, outcome: Result<T, String>| #[trigger]
            op.ensures((u,), outcome) ==> by_parsed_url(f, u@, outcome),
        request_made(op, strategy_before, before, strategy_after, after, r),
    ensures
        parsed_request_made(f, strategy_before, before, strategy_after, after, r),
{
    if !before.shutdown {
        let (order, states, moments) = choose|
            order: Seq<int>,
            states: Seq<S>,
            moments: Seq<Map<Seq<char>, EndpointStats>>,
        |
            {
                &&& #[trigger] request_trace(
                    strategy_before,
                    before,
                    after,
                    order,
                    states,
                    moments,
                    r is Ok,
                )
                &&& operation_ran(op, before.endpoints, order, moments, r)
            };
        let endpoints = before.endpoints;
        assert forall|k: int|
            0 <= k < order.len() && !(r is Ok && k == order.len() - 1) implies parsed_op_failed(
            f,
            #[trigger] url_at(endpoints, order, k),
            recorded_message(endpoints, order, moments, k),
        ) by {
            let url = url_at(endpoints, order, k);
            let recorded = recorded_message(endpoints, order, moments, k);
            assert(op_failed(op, url, recorded));
            let (u, m) = choose|u: String, m: String| #[trigger]
                op.ensures((u,), Err(m)) && u@ == url && recorded == truncated_message(m@);
            assert(by_parsed_url(f, url, Err::<T, String>(m)));
        }
        if r is Ok {
            let u = choose|u: String| #[trigger]
                op.ensures((u,), Ok::<T, String>(r->Ok_0)) && u@ == url_at(
                    endpoints,
                    order,
                    order.len() - 1,
                );
            assert(by_parsed_url(f, u@, Ok::<T, String>(r->Ok_0)));
        }
        assert(parsed_operation_ran(f, endpoints, order, moments, r));
    }
}

/// A run whose last attempt returned `v` and whose earlier attempts failed
/// as recorded is a run of the operation that ends in `Ok(v)`.
proof fn lemma_operation_ran_ok<T, F: Fn(String) -> Result<T, String>>(
    f: F,
    endpoints: Seq<RpcEndpoint>,
    order: Seq<int>,
    moments: Seq<Map<Seq<char>, EndpointStats>>,
    u: String,
    v: T,
)
    requires
        order.len() > 0,
        f.ensures((u,), Ok(v)),
        u@ == url_at(endpoints, order, order.len() - 1),
        forall|k: int|
            0 <= k < order.len() - 1 ==> op_failed(
                f,
                #[trigger] url_at(endpoints, order, k),
                recorded_message(endpoints, order, moments, k),
            ),
    ensures
        operation_ran(f, endpoints, order, moments, Ok::<T, RpcPoolError>(v)),
{
    let r = Ok::<T, RpcPoolError>(v);
    assert(f.ensures((u,), Ok::<T, String>(r->Ok_0)));
}

/// The URLs tried in the first `k` attempts depend on those attempts alone.
proof fn lemma_tried_urls_agree(endpoints: Seq<RpcEndpoint>, a: Seq<int>, b: Seq<int>, k: int)
    requires
        k <= a.len(),
        k <= b.len(),
        forall|j: int| 0 <= j < k ==> a[j] == b[j],
    ensures
        tried_urls(endpoints, a, k) == tried_urls(endpoints, b, k),
{
    assert forall|url: Seq<char>|
        tried_urls(endpoints, a, k).contains(url) == tried_urls(endpoints, b, k).contains(url) by {
        if tried_urls(endpoints, a, k).contains(url) {
            let j = choose|j: int|
                0 <= j < k && j < a.len() && endpoints[#[trigger] a[j]].url@ == url;
            assert(endpoints[b[j]].url@ == url);
        }
        if tried_urls(endpoints, b, k).contains(url) {
            let j = choose|j: int|
                0 <= j < k && j < b.len() && endpoints[#[trigger] b[j]].url@ == url;
            assert(endpoints[a[j]].url@ == url);
        }
    }
    assert(tried_urls(endpoints, a, k) =~= tried_urls(endpoints, b, k));
}

/// Whether the endpoint with this URL is one that the strategy may select
/// for the first attempt of a request, when nothing is excluded yet.
pub open spec fn first_attempt<S: SelectionStrategy>(
    strategy: S,
    before: PoolView,
    url: Seq<char>,
) -> bool {
    exists|i: int|
        {
            &&& 0 <= i < before.endpoints.len()
            &&& #[trigger] strategy.may_select(
                before.endpoints,
                before.stats,
                Set::empty(),
                Some(i),
            )
            &&& before.endpoints[i].url@ == url
        }
}

/// In a pool that selects by failover, the first attempt of a request goes
/// to a healthy endpoint if there is one: to the one of the smallest priority
/// value, and among those of that priority to the first.
pub proof fn failover_pool_prefers_smallest_priority(
    strategy: FailoverStrategy,
    pool: PoolView,
    url: Seq<char>,
)
    requires
        pool_wf(pool),
        first_attempt(strategy, pool, url),
        exists|j: int|
            0 <= j < pool.endpoints.len() && pool.stats[(#[trigger] pool.endpoints[j]).url@].is_healthy,
    ensures
        exists|i: int|
            {
                &&& 0 <= i < pool.endpoints.len()
                &&& (#[trigger] pool.endpoints[i]).url@ == url
                &&& pool.stats[url].is_healthy
                &&& forall|j: int|
                    0 <= j < pool.endpoints.len() && pool.stats[(
                    #[trigger] pool.endpoints[j]).url@].is_healthy ==> i <= j
                        && pool.endpoints[i].priority <= pool.endpoints[j].priority
            },
{
    let nothing = Set::<Seq<char>>::empty();
    let i = choose|i: int|
        {
            &&& 0 <= i < pool.endpoints.len()
            &&& #[trigger] strategy.may_select(pool.endpoints, pool.stats, nothing, Some(i))
            &&& pool.endpoints[i].url@ == url
        };
    let j0 = choose|j: int|
        0 <= j < pool.endpoints.len() && pool.stats[(#[trigger] pool.endpoints[j]).url@].is_healthy;
    assert(eligible(pool.endpoints, pool.stats, nothing, true, j0));
    crate::strategies::failover::failover_takes_smallest_priority(
        pool.endpoints,
        pool.stats,
        nothing,
    );
    assert(pool.endpoints[i].url@ == url);
    assert forall|j: int|
        0 <= j < pool.endpoints.len() && pool.stats[(
        #[trigger] pool.endpoints[j]).url@].is_healthy implies i <= j && pool.endpoints[i].priority
        <= pool.endpoints[j].priority by {
        assert(eligible(pool.endpoints, pool.stats, nothing, true, j));
    }
}

/// Whether the operation failed when it was invoked with this URL, with a
/// message that is recorded as `recorded`.
pub open spec fn op_failed<T, F: Fn(String) -> Result<T, String>>(
    f: F,
    url: Seq<char>,
    recorded: Seq<char>,
) -> bool {
    exists|u: String, m: String| #[trigger]
        f.ensures((u,), Err(m)) && u@ == url && recorded == truncated_message(m@)
}

impl<S: SelectionStrategy> RpcPool<S> {
    /// Execute an operation with automatic failover across the endpoints.
    ///
    /// The operation gets the URL of an endpoint. The strategy picks the
    /// endpoints one after another, never the same one twice; the first
    /// success ends the request and is recorded with its latency. Each
    /// failure is recorded with the endpoint and counted as a failover. When
    /// every endpoint has failed, the request fails with `AllEndpointsFailed`
    /// and the last error. A pool that was shut down refuses with
    /// `PoolShutdown` and does not invoke the operation.
    pub fn execute_with_url<T, F: Fn(String) -> Result<T, String>>(&mut self, f: F) -> (r: Result<
        T,
        RpcPoolError,
    >)
        requires
            old(self).wf(),
            old(self)@.shutdown || forall|u: String| #[trigger] f.requires((u,)),
        ensures
            final(self).wf(),
            old(self)@.shutdown <==> r matches Err(RpcPoolError::PoolShutdown),
            old(self)@.shutdown ==> final(self)@ == old(self)@,
            final(self)@.endpoints == old(self)@.endpoints,
            final(self)@.shutdown == old(self)@.shutdown,
            final(self)@.max_consecutive_errors == old(self)@.max_consecutive_errors,
            final(self)@.retry_delay == old(self)@.retry_delay,
            final(self)@.health_check_interval == old(self)@.health_check_interval,
            final(self)@.request_timeout == old(self)@.request_timeout,
            final(self)@.health_check_timeout == old(self)@.health_check_timeout,
            !old(self)@.shutdown ==> final(self)@.total_requests == counter_after(
                old(self)@.total_requests,
                1,
            ),
            r matches Ok(v) ==> exists|u: String, failed: Set<Seq<char>>, first: Seq<char>|
                {
                    &&& f.ensures((u,), Ok(v))
                    &&& #[trigger] success_recorded(old(self)@, final(self)@, u@, failed)
                    &&& forall|url: Seq<char>| #[trigger]
                        failed.contains(url) ==> op_failed(
                            f,
                            url,
                            final(self)@.stats[url].last_error->0@,
                        )
                    &&& #[trigger] first_attempt(old(self).strategy(), old(self)@, first)
                    &&& first == u@ || failed.contains(first)
                    &&& failed.len() == 0 <==> first == u@
                },
            r matches Err(RpcPoolError::AllEndpointsFailed(msg)) ==> {
                &&& final(self)@.failovers == counter_after(
                    old(self)@.failovers,
                    old(self)@.endpoints.len() as int,
                )
                &&& failures_recorded(
                    old(self)@.stats,
                    final(self)@.stats,
                    Set::new(|url: Seq<char>| has_url(old(self)@.endpoints, url)),
                    old(self)@.max_consecutive_errors,
                )
                &&& forall|url: Seq<char>| #[trigger]
                    has_url(old(self)@.endpoints, url) ==> op_failed(
                        f,
                        url,
                        final(self)@.stats[url].last_error->0@,
                    )
                &&& exists|url: Seq<char>|
                    has_url(old(self)@.endpoints, url) && #[trigger] op_failed(f, url, msg@)
                &&& exists|first: Seq<char>| #[trigger]
                    first_attempt(old(self).strategy(), old(self)@, first)
            },
            r matches Err(e) ==> e is PoolShutdown || e is AllEndpointsFailed,
            request_made(
                f,
                old(self).strategy(),
                old(self)@,
                final(self).strategy(),
                final(self)@,
                r,
            ),
    {
        let mut req = match self.begin_request() {
            Ok(req) => req,
            Err(e) => {
                return Err(e);
            },
        };
        let ghost start = self@;
        let ghost first: Seq<char> = Seq::empty();
        let ghost states: Seq<S> = Seq::empty();
        let ghost moments: Seq<Map<Seq<char>, EndpointStats>> = seq![self@.stats];
        loop
            invariant
                self.wf(),
                req.wf(self@.endpoints),
                states.len() == req.attempts(),
                moments.len() == req.attempts() + 1,
                moments[0] == old(self)@.stats,
                moments[req.attempts() as int] == self@.stats,
                req.attempts() > 0 ==> states[0] == old(self).strategy(),
                forall|k: int|
                    0 <= k < req.attempts() ==> #[trigger] step_selected(
                        old(self)@,
                        req.attempted(),
                        states,
                        moments,
                        k,
                    ),
                forall|k: int|
                    0 <= k < req.attempts() ==> #[trigger] step_recorded(
                        old(self)@,
                        req.attempted(),
                        moments,
                        k,
                        false,
                    ),
                forall|k: int|
                    0 <= k < req.attempts() ==> op_failed(
                        f,
                        #[trigger] url_at(old(self)@.endpoints, req.attempted(), k),
                        recorded_message(old(self)@.endpoints, req.attempted(), moments, k),
                    ),
                req.attempts() > 0 ==> req.last_error()->0@ == recorded_message(
                    old(self)@.endpoints,
                    req.attempted(),
                    moments,
                    req.attempts() - 1,
                ),
                req.attempts() == 0 ==> self.strategy() == old(self).strategy(),
                req.attempts() > 0 ==> first_attempt(old(self).strategy(), old(self)@, first)
                    && req.tried().contains(first),
                !start.shutdown,
                pool_wf(start),
                start == (PoolView {
                    total_requests: counter_after(old(self)@.total_requests, 1),
                    ..old(self)@
                }),
                self@ == (PoolView { failovers: self@.failovers, stats: self@.stats, ..start }),
                self@.failovers == counter_after(start.failovers, req.attempts() as int),
                failures_recorded(start.stats, self@.stats, req.tried(), start.max_consecutive_errors),
                req.tried().finite(),
                req.tried().len() == req.attempts(),
                forall|url: Seq<char>| #[trigger]
                    req.tried().contains(url) ==> op_failed(f, url, self@.stats[url].last_error->0@),
                req.attempts() > 0 ==> req.last_error() is Some && exists|url: Seq<char>|
                    has_url(start.endpoints, url) && #[trigger] op_failed(
                        f,
                        url,
                        req.last_error()->0@,
                    ),
                forall|u: String| #[trigger] f.requires((u,)),
            decreases self@.endpoints.len() - req.attempts(),
        {
            let ghost before = self@;
            let ghost req_before = req;
            let ghost state_before = self.strategy();
            let ghost states_before = states;
            let ghost moments_before = moments;
            match self.next_attempt(&mut req) {
                RequestStep::Finished(e) => {
                    proof {
                        assert(request_trace(
                            old(self).strategy(),
                            old(self)@,
                            self@,
                            req.attempted(),
                            states,
                            moments,
                            false,
                        ));
                        assert(operation_ran(
                            f,
                            old(self)@.endpoints,
                            req.attempted(),
                            moments,
                            Err::<T, RpcPoolError>(e),
                        ));
                        assert forall|url: Seq<char>|
                            has_url(start.endpoints, url) implies req.tried().contains(url) by {
                            let j = choose|j: int|
                                0 <= j < start.endpoints.len() && (#[trigger] start.endpoints[j]).url@
                                    == url;
                            lemma_all_positions_taken(req.attempted(), start.endpoints.len() as int, j);
                            let k = choose|k: int|
                                0 <= k < req.attempted().len() && req.attempted()[k] == j;
                            assert(start.endpoints[req.attempted()[k]].url@ == url);
                        }
                        assert(failures_recorded(
                            start.stats,
                            self@.stats,
                            Set::new(|url: Seq<char>| has_url(start.endpoints, url)),
                            start.max_consecutive_errors,
                        ));
                    }
                    return Err(e);
                },
                RequestStep::Attempt(endpoint) => {
                    let begun = clock_now();
                    let argument = endpoint.url.clone();
                    let ghost u = argument;
                    let outcome = f(argument);
                    proof {
                        assert(has_url(self@.endpoints, endpoint.url@));
                        if req_before.attempts() == 0 {
                            first = u@;
                            assert(before.stats =~= old(self)@.stats);
                            assert(req_before.tried() =~= Set::<Seq<char>>::empty());
                            assert(first_attempt(old(self).strategy(), old(self)@, first));
                        }
                        // The attempt joins the run: it went to an endpoint that
                        // the strategy might select at this moment.
                        let len = req_before.attempts() as int;
                        let order = req.attempted();
                        states = states_before.push(state_before);
                        assert(order[len] == order.last());
                        assert(url_at(old(self)@.endpoints, order, len) == u@);
                        assert(req_before.tried() =~= tried_urls(old(self)@.endpoints, order, len)) by {
                            assert forall|url: Seq<char>|
                                req_before.tried().contains(url) == tried_urls(
                                    old(self)@.endpoints,
                                    order,
                                    len,
                                ).contains(url) by {
                                if req_before.tried().contains(url) {
                                    let j = choose|j: int|
                                        0 <= j < req_before.attempted().len()
                                            && old(self)@.endpoints[#[trigger] req_before.attempted()[j]].url@
                                            == url;
                                    assert(order[j] == req_before.attempted()[j]);
                                }
                                if tried_urls(old(self)@.endpoints, order, len).contains(url) {
                                    let j = choose|j: int|
                                        0 <= j < len && j < order.len()
                                            && old(self)@.endpoints[#[trigger] order[j]].url@ == url;
                                    assert(order[j] == req_before.attempted()[j]);
                                }
                            }
                        }
                        assert forall|k: int| 0 <= k < len implies tried_urls(
                            old(self)@.endpoints,
                            order,
                            k,
                        ) == tried_urls(old(self)@.endpoints, req_before.attempted(), k) by {
                            lemma_tried_urls_agree(
                                old(self)@.endpoints,
                                order,
                                req_before.attempted(),
                                k,
                            );
                        }
                    }
                    match outcome {
                        Ok(value) => {
                            let elapsed = begun.elapsed();
                            let latency_ms = latency_from_millis(elapsed.as_millis());
                            self.record_attempt_success(endpoint.url.as_str(), latency_ms);
                            proof {
                                let len = req_before.attempts() as int;
                                let order = req.attempted();
                                moments = moments_before.push(self@.stats);
                                assert(step_recorded(old(self)@, order, moments, len, true));
                                assert forall|k: int| 0 <= k < len + 1 implies #[trigger] step_selected(
                                    old(self)@,
                                    order,
                                    states,
                                    moments,
                                    k,
                                ) by {
                                    if k < len {
                                        assert(step_selected(
                                            old(self)@,
                                            req_before.attempted(),
                                            states_before,
                                            moments_before,
                                            k,
                                        ));
                                    }
                                }
                                assert forall|k: int| 0 <= k < len + 1 implies #[trigger] step_recorded(
                                    old(self)@,
                                    order,
                                    moments,
                                    k,
                                    true,
                                ) by {
                                    if k < len {
                                        assert(step_recorded(
                                            old(self)@,
                                            req_before.attempted(),
                                            moments_before,
                                            k,
                                            false,
                                        ));
                                    }
                                }
                                assert forall|k: int| 0 <= k < len implies op_failed(
                                    f,
                                    #[trigger] url_at(old(self)@.endpoints, order, k),
                                    recorded_message(old(self)@.endpoints, order, moments, k),
                                ) by {
                                    assert(url_at(old(self)@.endpoints, order, k) == url_at(
                                        old(self)@.endpoints,
                                        req_before.attempted(),
                                        k,
                                    ));
                                    assert(moments[k + 1] == moments_before[k + 1]);
                                    assert(recorded_message(old(self)@.endpoints, order, moments, k)
                                        == recorded_message(
                                        old(self)@.endpoints,
                                        req_before.attempted(),
                                        moments_before,
                                        k,
                                    ));
                                }
                                assert(order.len() == len + 1);
                                assert(request_trace(
                                    old(self).strategy(),
                                    old(self)@,
                                    self@,
                                    order,
                                    states,
                                    moments,
                                    true,
                                ));
                                assert(f.ensures((u,), Ok(value)) && u@ == url_at(
                                    old(self)@.endpoints,
                                    order,
                                    order.len() - 1,
                                ));
                                lemma_operation_ran_ok(
                                    f,
                                    old(self)@.endpoints,
                                    order,
                                    moments,
                                    u,
                                    value,
                                );
                                assert(operation_ran(
                                    f,
                                    old(self)@.endpoints,
                                    order,
                                    moments,
                                    Ok::<T, RpcPoolError>(value),
                                ));
                                let failed = req_before.tried();
                                assert(self@.stats.insert(u@, start.stats[u@]) =~= before.stats);
                                assert(self@.stats[u@] == start.stats[u@].after_success(latency_ms));
                                assert(success_recorded(old(self)@, self@, u@, failed));
                                assert(failed.len() == 0 ==> first == u@);
                                assert forall|url: Seq<char>| #[trigger]
                                    failed.contains(url) implies op_failed(
                                    f,
                                    url,
                                    self@.stats[url].last_error->0@,
                                ) by {
                                    assert(self@.stats[url] == before.stats[url]);
                                }
                            }
                            return Ok(value);
                        },
                        Err(message) => {
                            let ghost m = message;
                            self.record_attempt_failure(
                                &mut req,
                                endpoint.url.as_str(),
                                message.as_str(),
                            );
                            proof {
                                let len = req_before.attempts() as int;
                                let order = req.attempted();
                                moments = moments_before.push(self@.stats);
                                assert(step_recorded(old(self)@, order, moments, len, false));
                                assert forall|k: int| 0 <= k < len + 1 implies #[trigger] step_selected(
                                    old(self)@,
                                    order,
                                    states,
                                    moments,
                                    k,
                                ) by {
                                    if k < len {
                                        assert(step_selected(
                                            old(self)@,
                                            req_before.attempted(),
                                            states_before,
                                            moments_before,
                                            k,
                                        ));
                                    }
                                }
                                assert forall|k: int| 0 <= k < len + 1 implies #[trigger] step_recorded(
                                    old(self)@,
                                    order,
                                    moments,
                                    k,
                                    false,
                                ) by {
                                    if k < len {
                                        assert(step_recorded(
                                            old(self)@,
                                            req_before.attempted(),
                                            moments_before,
                                            k,
                                            false,
                                        ));
                                    }
                                }
                                assert(f.ensures((u,), Err(m)));
                                assert(op_failed(
                                    f,
                                    u@,
                                    recorded_message(old(self)@.endpoints, order, moments, len),
                                ));
                                assert forall|k: int| 0 <= k < len + 1 implies op_failed(
                                    f,
                                    #[trigger] url_at(old(self)@.endpoints, order, k),
                                    recorded_message(old(self)@.endpoints, order, moments, k),
                                ) by {
                                    if k < len {
                                        assert(url_at(old(self)@.endpoints, order, k) == url_at(
                                            old(self)@.endpoints,
                                            req_before.attempted(),
                                            k,
                                        ));
                                    }
                                }
                                assert(op_failed(f, u@, req.last_error()->0@));
                                assert(op_failed(f, u@, self@.stats[u@].last_error->0@));
                                assert forall|url: Seq<char>| #[trigger]
                                    req.tried().contains(url) implies op_failed(
                                    f,
                                    url,
                                    self@.stats[url].last_error->0@,
                                ) by {
                                    if url != u@ {
                                        assert(req_before.tried().contains(url));
                                        assert(self@.stats[url] == before.stats[url]);
                                    }
                                }
                            }
                        },
                    }
                },
            }
        }
    }

    /// Execute an operation with automatic failover; the operation gets the
    /// parsed URL of an endpoint. An endpoint whose URL does not parse counts
    /// as failed, with the message "Invalid URL: ..." and without the
    /// operation being invoked on it.
    pub fn execute<T, F: Fn(url::Url) -> Result<T, String>>(&mut self, f: F) -> (r: Result<
        T,
        RpcPoolError,
    >)
        requires
            old(self).wf(),
            old(self)@.shutdown || forall|u: url::Url| #[trigger] f.requires((u,)),
        ensures
            final(self).wf(),
            old(self)@.shutdown <==> r matches Err(RpcPoolError::PoolShutdown),
            old(self)@.shutdown ==> final(self)@ == old(self)@,
            final(self)@.endpoints == old(self)@.endpoints,
            final(self)@.shutdown == old(self)@.shutdown,
            final(self)@.max_consecutive_errors == old(self)@.max_consecutive_errors,
            final(self)@.retry_delay == old(self)@.retry_delay,
            final(self)@.health_check_interval == old(self)@.health_check_interval,
            final(self)@.request_timeout == old(self)@.request_timeout,
            final(self)@.health_check_timeout == old(self)@.health_check_timeout,
            !old(self)@.shutdown ==> final(self)@.total_requests == counter_after(
                old(self)@.total_requests,
                1,
            ),
            r matches Ok(v) ==> exists|url: Seq<char>, failed: Set<Seq<char>>, first: Seq<char>|
                {
                    &&& url_parse_result(url) is Ok
                    &&& f.ensures((url_parse_result(url)->Ok_0,), Ok(v))
                    &&& #[trigger] success_recorded(old(self)@, final(self)@, url, failed)
                    &&& forall|other: Seq<char>| #[trigger]
                        failed.contains(other) ==> parsed_op_failed(
                            f,
                            other,
                            final(self)@.stats[other].last_error->0@,
                        )
                    &&& #[trigger] first_attempt(old(self).strategy(), old(self)@, first)
                    &&& first == url || failed.contains(first)
                    &&& failed.len() == 0 <==> first == url
                },
            r matches Err(RpcPoolError::AllEndpointsFailed(msg)) ==> {
                &&& final(self)@.failovers == counter_after(
                    old(self)@.failovers,
                    old(self)@.endpoints.len() as int,
                )
                &&& failures_recorded(
                    old(self)@.stats,
                    final(self)@.stats,
                    Set::new(|url: Seq<char>| has_url(old(self)@.endpoints, url)),
                    old(self)@.max_consecutive_errors,
                )
                &&& forall|url: Seq<char>| #[trigger]
                    has_url(old(self)@.endpoints, url) ==> parsed_op_failed(
                        f,
                        url,
                        final(self)@.stats[url].last_error->0@,
                    )
                &&& exists|url: Seq<char>|
                    has_url(old(self)@.endpoints, url) && #[trigger] parsed_op_failed(f, url, msg@)
                &&& exists|first: Seq<char>| #[trigger]
                    first_attempt(old(self).strategy(), old(self)@, first)
            },
            r matches Err(e) ==> e is PoolShutdown || e is AllEndpointsFailed,
            parsed_request_made(
                f,
                old(self).strategy(),
                old(self)@,
                final(self).strategy(),
                final(self)@,
                r,
            ),
    {
        let inner = &f;
        let op = |text: String| -> (outcome: Result<T, String>)
            requires
                forall|u: url::Url| #[trigger] inner.requires((u,)),
            ensures
                by_parsed_url(*inner, text@, outcome),
            {
                match parse_url(text.as_str()) {
                    Ok(url) => inner(url),
                    Err(e) => Err(
                        String::from_str("Invalid URL: ").concat(parse_error_text(&e).as_str()),
                    ),
                }
            };
        let r = self.execute_with_url(op);
        proof {
            assert forall|url: Seq<char>, recorded: Seq<char>| #[trigger]
                op_failed(op, url, recorded) implies parsed_op_failed(f, url, recorded) by {
                let (u, m) = choose|u: String, m: String| #[trigger]
                    op.ensures((u,), Err(m)) && u@ == url && recorded == truncated_message(m@);
                assert(by_parsed_url(f, url, Err::<T, String>(m)));
            }
            lemma_request_made_parsed(
                f,
                op,
                old(self).strategy(),
                old(self)@,
                self.strategy(),
                self@,
                r,
            );
            match &r {
                Ok(value) => {
                    let v = *value;
                    let (u, failed, first) = choose|
                        u: String,
                        failed: Set<Seq<char>>,
                        first: Seq<char>,
                    |
                        {
                            &&& op.ensures((u,), Ok(v))
                            &&& #[trigger] success_recorded(old(self)@, self@, u@, failed)
                            &&& forall|url: Seq<char>| #[trigger]
                                failed.contains(url) ==> op_failed(
                                    op,
                                    url,
                                    self@.stats[url].last_error->0@,
                                )
                            &&& #[trigger] first_attempt(old(self).strategy(), old(self)@, first)
                            &&& first == u@ || failed.contains(first)
                            &&& failed.len() == 0 <==> first == u@
                        };
                    assert(by_parsed_url(f, u@, Ok::<T, String>(v)));
                    assert(success_recorded(old(self)@, self@, u@, failed));
                    assert(first_attempt(old(self).strategy(), old(self)@, first));
                },
                Err(RpcPoolError::AllEndpointsFailed(msg)) => {
                    let url = choose|url: Seq<char>|
                        has_url(old(self)@.endpoints, url) && #[trigger] op_failed(op, url, msg@);
                    assert(parsed_op_failed(f, url, msg@));
                },
                _ => {},
            }
        }
        r
    }
}

/// What the operation did in the run of a request that hands out parsed
/// URLs: every attempt but the last failed, because the URL did not parse or
/// because the operation failed on it, with the message that was recorded;
/// on the last the URL parsed and the operation returned the value of a
/// successful request, or the attempt failed with the message that a failed
/// request hands back.
pub open spec fn parsed_operation_ran<T, F: Fn(url::Url) -> Result<T, String>>(
    f: F,
    endpoints: Seq<RpcEndpoint>,
    order: Seq<int>,
    moments: Seq<Map<Seq<char>, EndpointStats>>,
    r: Result<T, RpcPoolError>,
) -> bool {
    let n = order.len() as int;
    &&& forall|k: int|
        0 <= k < n && !(r is Ok && k == n - 1) ==> parsed_op_failed(
            f,
            #[trigger] url_at(endpoints, order, k),
            recorded_message(endpoints, order, moments, k),
        )
    &&& r matches Ok(v) ==> url_parse_result(url_at(endpoints, order, n - 1)) is Ok && f.ensures(
        (url_parse_result(url_at(endpoints, order, n - 1))->Ok_0,),
        Ok(v),
    )
    &&& r is Err ==> (r matches Err(RpcPoolError::AllEndpointsFailed(msg)) && msg@
        == recorded_message(endpoints, order, moments, n - 1))
}

/// What invoking an operation by the text of a URL gives: the outcome of
/// the operation on the parsed URL, or the failure "Invalid URL: ..." with
/// the description of the parse error.
pub open spec fn by_parsed_url<T, F: Fn(url::Url) -> Result<T, String>>(
    f: F,
    text: Seq<char>,
    outcome: Result<T, String>,
) -> bool {
    match url_parse_result(text) {
        Ok(url) => f.ensures((url,), outcome),
        Err(e) => outcome matches Err(m) && m@ == invalid_url_message(e),
    }
}

/// Whether an attempt on the endpoint with this URL failed, with a message
/// that is recorded as `recorded`: the URL did not parse, or the operation
/// failed on the parsed URL.
pub open spec fn parsed_op_failed<T, F: Fn(url::Url) -> Result<T, String>>(
    f: F,
    url: Seq<char>,
    recorded: Seq<char>,
) -> bool {
    exists|m: String| #[trigger]
        by_parsed_url(f, url, Err::<T, String>(m)) && recorded == truncated_message(m@)
}

/// Whether the probe, invoked with the parsed URL of an endpoint, found the
/// endpoint alive or not.
pub open spec fn probe_said<F: Fn(url::Url) -> bool>(probe: F, url: Seq<char>, alive: bool) -> bool {
    url_parse_result(url) is Ok && probe.ensures((url_parse_result(url)->Ok_0,), alive)
}

/// Whether an unhealthy endpoint is due for a probe whatever the clock
/// says: it has no time of an error, or its backoff asks for no delay.
pub open spec fn certainly_due(stats: EndpointStats, retry_delay: Duration) -> bool {
    &&& !stats.is_healthy
    &&& stats.last_error_time is None || backoff_delay_nanos(
        duration_nanos(retry_delay) as int,
        stats.recovery_attempts as int,
    ) == 0
}

/// How a round of health probes leaves the statistics of an endpoint. One
/// that was not due is left untouched, and so is one whose URL does not
/// parse. One that was due is probed: it is recovered after a probe that
/// found it alive, and has one more failed recovery attempt and the time of
/// it after a probe that did not.
pub open spec fn probe_outcome<F: Fn(url::Url) -> bool>(
    probe: F,
    url: Seq<char>,
    due: bool,
    before: EndpointStats,
    after: EndpointStats,
) -> bool {
    if !due || url_parse_result(url) is Err {
        after == before
    } else {
        ||| probe_said(probe, url, true) && after == before.after_recovery()
        ||| probe_said(probe, url, false) && after.last_error_time is Some && after
            == before.after_probe_failure(after.last_error_time->0)
    }
}

/// Whether a pool differs from an earlier state of it by one round of
/// health probes in which the endpoints with the URLs `due` were due: only
/// unhealthy endpoints were due, among them every one that is due whatever
/// the clock says unless the pool was shut down, and the statistics of each
/// endpoint are as a probe leaves them.
pub open spec fn probes_made<F: Fn(url::Url) -> bool>(
    probe: F,
    before: PoolView,
    after: PoolView,
    due: Set<Seq<char>>,
) -> bool {
    &&& forall|url: Seq<char>| #[trigger]
        due.contains(url) ==> has_url(before.endpoints, url) && !before.stats[url].is_healthy
    &&& !before.shutdown ==> forall|url: Seq<char>|
        has_url(before.endpoints, url) && #[trigger] certainly_due(
            before.stats[url],
            before.retry_delay,
        ) ==> due.contains(url)
    &&& forall|url: Seq<char>| #[trigger]
        after.stats.contains_key(url) ==> probe_outcome(
            probe,
            url,
            due.contains(url),
            before.stats[url],
            after.stats[url],
        )
}

/// Two states of a pool whose endpoints agree in health up to position `n`
/// have the same number of healthy endpoints up to there.
proof fn lemma_healthy_count_agrees(a: PoolView, b: PoolView, n: nat)
    requires
        a.endpoints == b.endpoints,
        n <= a.endpoints.len(),
        forall|j: int|
            0 <= j < n ==> a.stats.contains_key((#[trigger] a.endpoints[j]).url@)
                == b.stats.contains_key(a.endpoints[j].url@) && a.stats[a.endpoints[j].url@].is_healthy
                == b.stats[a.endpoints[j].url@].is_healthy,
    ensures
        healthy_count(a, n) == healthy_count(b, n),
    decreases n,
{
    if n > 0 {
        lemma_healthy_count_agrees(a, b, (n - 1) as nat);
        assert(a.endpoints[n - 1].url@ == b.endpoints[n - 1].url@);
    }
}

impl<S: SelectionStrategy> RpcPool<S> {
    /// Whether the endpoint with this URL is due for a health probe now: it
    /// is unhealthy and its backoff has run out. A healthy endpoint is never
    /// due.
    pub fn probe_due(&self, url: &str) -> (due: bool)
        ensures
            self@.stats.contains_key(url@) && self@.stats[url@].is_healthy ==> !due,
            !self@.stats.contains_key(url@) ==> due,
            self@.stats.contains_key(url@) && certainly_due(
                self@.stats[url@],
                self@.retry_delay,
            ) ==> due,
            self@.stats.contains_key(url@) && !self@.stats[url@].is_healthy
                && self@.stats[url@].last_error_time is Some ==> exists|elapsed: Duration|
                due == #[trigger] due_after(
                    elapsed,
                    self@.retry_delay,
                    self@.stats[url@].recovery_attempts,
                ),
    {
        match stats_map_get(&self.stats, url) {
            Some(s) => {
                if s.is_healthy {
                    false
                } else {
                    let due = s.can_retry(self.retry_delay);
                    proof {
                        if s.last_error_time is Some {
                            let elapsed = choose|elapsed: Duration|
                                due == #[trigger] due_after(
                                    elapsed,
                                    self.retry_delay,
                                    s.recovery_attempts,
                                );
                            assert(due == due_after(
                                elapsed,
                                self@.retry_delay,
                                self@.stats[url@].recovery_attempts,
                            ));
                        }
                    }
                    due
                }
            },
            None => true,
        }
    }

    /// Record that a health probe of an endpoint succeeded: the endpoint is
    /// healthy again and its backoff starts over. Returns whether the URL is
    /// known; an unknown URL changes nothing.
    pub fn record_probe_success(&mut self, url: &str) -> (recovered: bool)
        requires
            old(self).wf(),
        ensures
            final(self).wf(),
            final(self).strategy() == old(self).strategy(),
            recovered == old(self)@.stats.contains_key(url@),
            !recovered ==> final(self)@ == old(self)@,
            recovered ==> final(self)@ == (PoolView {
                stats: old(self)@.stats.insert(url@, old(self)@.stats[url@].after_recovery()),
                ..old(self)@
            }),
    {
        match stats_map_get(&self.stats, url) {
            Some(s) => {
                let mut s = s;
                s.mark_recovered();
                self.store_stats(s);
                true
            },
            None => false,
        }
    }

    /// Record that a health probe of an endpoint failed or timed out, now:
    /// the backoff starts again from this moment and grows by one step. An
    /// unknown URL changes nothing.
    pub fn record_probe_failure(&mut self, url: &str)
        requires
            old(self).wf(),
        ensures
            final(self).wf(),
            final(self).strategy() == old(self).strategy(),
            !old(self)@.stats.contains_key(url@) ==> final(self)@ == old(self)@,
            old(self)@.stats.contains_key(url@) ==> {
                &&& final(self)@.stats[url@].last_error_time is Some
                &&& final(self)@ == (PoolView {
                    stats: old(self)@.stats.insert(
                        url@,
                        old(self)@.stats[url@].after_probe_failure(
                            final(self)@.stats[url@].last_error_time->0,
                        ),
                    ),
                    ..old(self)@
                })
            },
    {
        match stats_map_get(&self.stats, url) {
            Some(s) => {
                let mut s = s;
                s.last_error_time = Some(clock_now());
                s.increment_recovery_attempts();
                self.store_stats(s);
            },
            None => {},
        }
    }

    /// One round of health probes: every unhealthy endpoint whose backoff has
    /// run out is probed once, in the order of the pool. A successful probe
    /// makes the endpoint healthy again; a failed one lengthens its backoff.
    /// An endpoint whose URL does not parse is counted as checked and left as
    /// it is. A pool that was shut down probes nothing.
    ///
    /// Which endpoints are due is for the clock to say, except that a healthy
    /// endpoint never is and that an unhealthy one always is where it has no
    /// time of an error or where its backoff asks for no delay. The report
    /// counts the endpoints that were due and those that recovered.
    pub fn check_health<F: Fn(url::Url) -> bool>(&mut self, probe: F) -> (report: HealthCheckReport)
        requires
            old(self).wf(),
            old(self)@.shutdown || forall|u: url::Url| #[trigger] probe.requires((u,)),
        ensures
            final(self).wf(),
            final(self).strategy() == old(self).strategy(),
            final(self)@ == (PoolView { stats: final(self)@.stats, ..old(self)@ }),
            exists|due: Set<Seq<char>>|
                {
                    &&& #[trigger] probes_made(probe, old(self)@, final(self)@, due)
                    &&& due.finite()
                    &&& report.checked == due.len()
                },
            old(self)@.shutdown ==> final(self)@ == old(self)@ && report.checked == 0,
            report.recovered <= report.checked <= old(self)@.endpoints.len(),
            healthy_count(final(self)@, old(self)@.endpoints.len()) == healthy_count(
                old(self)@,
                old(self)@.endpoints.len(),
            ) + report.recovered,
    {
        let mut checked: usize = 0;
        let mut recovered: usize = 0;
        let mut i: usize = 0;
        let ghost due: Set<Seq<char>> = Set::empty();
        while i < self.endpoints.len()
            invariant
                i <= self.endpoints@.len(),
                self.wf(),
                pool_wf(old(self)@),
                self.strategy() == old(self).strategy(),
                self@ == (PoolView { stats: self@.stats, ..old(self)@ }),
                recovered <= checked <= i,
                old(self)@.shutdown ==> self@ == old(self)@ && checked == 0,
                due.finite(),
                checked == due.len(),
                forall|url: Seq<char>| #[trigger]
                    self@.stats.contains_key(url) && !has_url(self@.endpoints.take(i as int), url)
                        ==> self@.stats[url] == old(self)@.stats[url],
                forall|url: Seq<char>| #[trigger]
                    due.contains(url) ==> has_url(self@.endpoints.take(i as int), url)
                        && !old(self)@.stats[url].is_healthy,
                forall|url: Seq<char>|
                    has_url(self@.endpoints.take(i as int), url) && #[trigger] certainly_due(
                        old(self)@.stats[url],
                        old(self)@.retry_delay,
                    ) ==> due.contains(url),
                forall|url: Seq<char>| #[trigger]
                    self@.stats.contains_key(url) ==> probe_outcome(
                        probe,
                        url,
                        due.contains(url),
                        old(self)@.stats[url],
                        self@.stats[url],
                    ),
                healthy_count(self@, i as nat) == healthy_count(old(self)@, i as nat) + recovered,
                self@.shutdown || forall|u: url::Url| #[trigger] probe.requires((u,)),
            decreases self.endpoints@.len() - i,
        {
            if self.shutdown {
                proof {
                    assert(due =~= Set::<Seq<char>>::empty());
                    assert(probes_made(probe, old(self)@, self@, due));
                }
                return HealthCheckReport { checked, recovered };
            }
            let url = self.endpoints[i].url.clone();
            let ghost before = self@;
            let ghost due_before = due;
            proof {
                assert(has_url(self@.endpoints, url@));
                assert(!has_url(self@.endpoints.take(i as int), url@)) by {
                    if has_url(self@.endpoints.take(i as int), url@) {
                        let j = choose|j: int|
                            0 <= j < i && (#[trigger] self@.endpoints.take(i as int)[j]).url@ == url@;
                        assert(self@.endpoints[j].url@ == self@.endpoints[i as int].url@);
                    }
                }
                assert(before.stats.contains_key(url@));
                assert(before.stats[url@] == old(self)@.stats[url@]);
            }
            if self.probe_due(url.as_str()) {
                checked = checked + 1;
                proof {
                    due = due_before.insert(url@);
                }
                match parse_url(url.as_str()) {
                    Ok(parsed) => {
                        if probe(parsed) {
                            if self.record_probe_success(url.as_str()) {
                                recovered = recovered + 1;
                            }
                        } else {
                            self.record_probe_failure(url.as_str());
                        }
                    },
                    Err(_) => {},
                }
            }
            proof {
                assert(self@.endpoints.take(i + 1)[i as int].url@ == url@);
                assert forall|other: Seq<char>|
                    has_url(self@.endpoints.take(i as int), other) implies has_url(
                    self@.endpoints.take(i + 1),
                    other,
                ) by {
                    let j = choose|j: int|
                        0 <= j < i && (#[trigger] self@.endpoints.take(i as int)[j]).url@ == other;
                    assert(self@.endpoints.take(i + 1)[j].url@ == other);
                }
                assert forall|other: Seq<char>|
                    has_url(self@.endpoints.take(i + 1), other) implies has_url(
                    self@.endpoints.take(i as int),
                    other,
                ) || other == url@ by {
                    let j = choose|j: int|
                        0 <= j < i + 1 && (#[trigger] self@.endpoints.take(i + 1)[j]).url@ == other;
                    if j < i {
                        assert(self@.endpoints.take(i as int)[j].url@ == other);
                    }
                }
                assert forall|other: Seq<char>| #[trigger]
                    self@.stats.contains_key(other) implies probe_outcome(
                    probe,
                    other,
                    due.contains(other),
                    old(self)@.stats[other],
                    self@.stats[other],
                ) by {
                    if other != url@ {
                        assert(self@.stats[other] == before.stats[other]);
                        assert(due.contains(other) == due_before.contains(other));
                    }
                }
                assert forall|j: int| 0 <= j < i implies before.stats.contains_key(
                    (#[trigger] before.endpoints[j]).url@,
                ) == self@.stats.contains_key(before.endpoints[j].url@)
                    && before.stats[before.endpoints[j].url@].is_healthy
                    == self@.stats[before.endpoints[j].url@].is_healthy by {
                    assert(before.endpoints[j].url@ != before.endpoints[i as int].url@);
                }
                lemma_healthy_count_agrees(before, self@, i as nat);
            }
            i = i + 1;
        }
        proof {
            assert(self@.endpoints.take(self@.endpoints.len() as int) =~= self@.endpoints);
            assert(probes_made(probe, old(self)@, self@, due));
        }
        HealthCheckReport { checked, recovered }
    }

    /// The current figures of the pool: its counters, the name of the endpoint
    /// that the strategy selects when nothing is excluded, and the figures of
    /// every endpoint in the order of the pool. Strategies that keep a state
    /// move on by this selection.
    pub fn metrics(&mut self) -> (m: RpcPoolMetrics)
        requires
            old(self).wf(),
        ensures
            final(self)@ == old(self)@,
            m.wf(),
            m.total_requests == old(self)@.total_requests,
            m.failovers == old(self)@.failovers,
            exists|i: int|
                {
                    &&& 0 <= i < old(self)@.endpoints.len()
                    &&& #[trigger] old(self).strategy().may_select(
                        old(self)@.endpoints,
                        old(self)@.stats,
                        Set::empty(),
                        Some(i),
                    )
                    &&& m.current_endpoint == old(self)@.endpoints[i].name
                },
            m.endpoints@.len() == old(self)@.endpoints.len(),
            forall|i: int|
                0 <= i < m.endpoints@.len() ==> (#[trigger] m.endpoints@[i])
                    == EndpointMetrics::spec_from_stats(
                    old(self)@.stats[old(self)@.endpoints[i].url@],
                ),
    {
        let snapshot = self.collect_stats_snapshot();
        let mut endpoints: Vec<EndpointMetrics> = Vec::new();
        let mut i: usize = 0;
        while i < self.endpoints.len()
            invariant
                i <= self.endpoints@.len(),
                self.wf(),
                self@ == old(self)@,
                self.strategy() == old(self).strategy(),
                snapshot@ == self@.stats,
                endpoints@.len() == i,
                forall|j: int|
                    0 <= j < i ==> (#[trigger] endpoints@[j]) == EndpointMetrics::spec_from_stats(
                        self@.stats[self@.endpoints[j].url@],
                    ),
                forall|j: int|
                    0 <= j < i ==> (#[trigger] endpoints@[j]).successful_requests
                        <= endpoints@[j].total_requests,
            decreases self.endpoints@.len() - i,
        {
            proof {
                assert(has_url(self@.endpoints, self@.endpoints[i as int].url@));
            }
            match snapshot.get(self.endpoints[i].url.as_str()) {
                Some(s) => {
                    endpoints.push(EndpointMetrics::from_stats(s));
                },
                None => {
                    proof {
                        assert(false);
                    }
                },
            }
            i = i + 1;
        }
        let exclude = UrlSet::new();
        let selected = self.strategy.select(self.endpoints.as_slice(), &snapshot, &exclude);
        proof {
            assert(is_candidate(self.endpoints@, exclude@, 0));
            let choice = choose|choice: Option<int>|
                {
                    &&& #[trigger] old(self).strategy().may_select(
                        self.endpoints@,
                        snapshot@,
                        exclude@,
                        choice,
                    )
                    &&& valid_choice(self.endpoints@, exclude@, choice)
                    &&& selected == chosen(self.endpoints@, choice)
                };
            assert(choice is Some);
            assert(exclude@ =~= Set::<Seq<char>>::empty());
        }
        let current_endpoint = match selected {
            Some(e) => e.name.clone(),
            None => String::from_str("none"),
        };
        RpcPoolMetrics {
            total_requests: self.total_requests,
            failovers: self.failovers,
            current_endpoint,
            endpoints,
        }
    }
}

/// A list of distinct positions below `n` that is as long as `n` holds every
/// position below `n`.
proof fn lemma_all_positions_taken(positions: Seq<int>, n: int, p: int)
    requires
        positions.len() == n,
        0 <= p < n,
        forall|k: int| 0 <= k < positions.len() ==> 0 <= #[trigger] positions[k] < n,
        forall|k1: int, k2: int|
            0 <= k1 < k2 < positions.len() ==> positions[k1] != positions[k2],
    ensures
        positions.contains(p),
{
    if !positions.contains(p) {
        // Move every position above `p` down by one: distinct positions below
        // `n - 1`, and still `n` of them.
        let moved = Seq::new(
            positions.len(),
            |k: int|
                if positions[k] > p {
                    positions[k] - 1
                } else {
                    positions[k]
                },
        );
        assert forall|k: int| 0 <= k < moved.len() implies 0 <= #[trigger] moved[k] < n - 1 by {
            assert(positions.contains(positions[k]));
        }
        assert forall|k1: int, k2: int| 0 <= k1 < k2 < moved.len() implies moved[k1] != moved[k2] by {
            assert(positions.contains(positions[k1]));
            assert(positions.contains(positions[k2]));
        }
        lemma_distinct_positions_fit(moved, n - 1);
    }
}

/// A list of distinct positions below `n` is no longer than `n`.
proof fn lemma_distinct_positions_fit(positions: Seq<int>, n: int)
    requires
        n >= 0,
        forall|k: int| 0 <= k < positions.len() ==> 0 <= #[trigger] positions[k] < n,
        forall|k1: int, k2: int|
            0 <= k1 < k2 < positions.len() ==> positions[k1] != positions[k2],
    ensures
        positions.len() <= n,
    decreases n,
{
    if n == 0 {
        if positions.len() > 0 {
            let first = positions[0];
            assert(0 <= first < n);
        }
    } else if positions.contains(n - 1) {
        let at = choose|k: int| 0 <= k < positions.len() && positions[k] == n - 1;
        let rest = positions.remove(at);
        assert forall|k: int| 0 <= k < rest.len() implies 0 <= #[trigger] rest[k] < n - 1 by {
            if k < at {
                assert(rest[k] == positions[k]);
            } else {
                assert(rest[k] == positions[k + 1]);
            }
        }
        assert forall|k1: int, k2: int| 0 <= k1 < k2 < rest.len() implies rest[k1] != rest[k2] by {
            let a = if k1 < at {
                k1
            } else {
                k1 + 1
            };
            let b = if k2 < at {
                k2
            } else {
                k2 + 1
            };
            assert(rest[k1] == positions[a] && rest[k2] == positions[b]);
        }
        lemma_distinct_positions_fit(rest, n - 1);
    } else {
        assert forall|k: int| 0 <= k < positions.len() implies 0 <= #[trigger] positions[k] < n
            - 1 by {
            assert(positions.contains(positions[k]));
        }
        lemma_distinct_positions_fit(positions, n - 1);
    }
}

/// The message that ends a request for which every endpoint failed: the last
/// error, or "Unknown error" where there was none.
fn exhausted_text(last_error: &Option<String>) -> (r: String)
    ensures
        r@ == exhausted_message(*last_error),
{
    match last_error {
        Some(e) => e.clone(),
        None => String::from_str("Unknown error"),
    }
}

} // verus!
