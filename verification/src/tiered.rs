//! Tiered pool: routing requests by priority.
//!
//! A tiered pool holds up to three pools, one per tier of endpoints, and
//! routes each request to the tiers that its priority allows:
//! - critical requests go to the premium tier first and may fall back,
//! - normal requests go to the standard tier, then to the free tier,
//! - low priority requests stay on the free tier unless escalation is on.

use crate::arrange::pool_order;
use crate::endpoint::EndpointCapabilities;
use crate::endpoint::EndpointStats;
use crate::endpoint::RpcEndpoint;
use crate::error::RpcPoolError;
use crate::pool::by_parsed_url;
use crate::pool::lemma_request_made_by_ref;
use crate::pool::lemma_request_made_parsed;
use crate::pool::op_failed;
use crate::pool::parsed_op_failed;
use crate::pool::parsed_request_made;
use crate::pool::request_made;
use crate::pool::truncated_message;
use crate::pool::PoolView;
use crate::pool::RpcPool;
use crate::pool::RpcPoolConfig;
use crate::presets::default_endpoints;
use crate::presets::is_default_list;
use crate::strategies::FailoverStrategy;
use crate::strategies::RateAwareStrategy;
use crate::strategies::SelectionStrategy;
use crate::strategies::UrlSet;
use crate::time::duration_secs;
use crate::url_text::parse_error_text;
use crate::url_text::parse_url;
use std::time::Duration;
use vstd::prelude::*;
use vstd::string::*;

verus! {

/// Request priority levels.
#[derive(Debug, Clone, Copy, PartialEq, Eq, Structural, Hash, PartialOrd, Ord)]
pub enum RequestPriority {
    /// Critical operations: premium tier first, lower tiers as fallback.
    Critical,
    /// Normal operations: standard tier first, then the free tier.
    Normal,
    /// Low priority: the free tier only, to preserve the quota of the others.
    Low,
}

impl Default for RequestPriority {
    fn default() -> (r: Self)
        ensures
            r == RequestPriority::Normal,
    {
        RequestPriority::Normal
    }
}

/// Endpoint tier classification.
#[derive(Debug, Clone, Copy, PartialEq, Eq, Structural, Hash, PartialOrd, Ord)]
pub enum EndpointTier {
    /// Premium tier: paid endpoints with high rate limits.
    Premium,
    /// Standard tier: reliable public endpoints with moderate limits.
    Standard,
    /// Free tier: public endpoints with low rate limits.
    Free,
}

impl Default for EndpointTier {
    fn default() -> (r: Self)
        ensures
            r == EndpointTier::Standard,
    {
        EndpointTier::Standard
    }
}

/// Endpoint configuration with tier information.
#[derive(Clone, Debug)]
pub struct TieredEndpoint {
    /// Base endpoint configuration.
    pub endpoint: RpcEndpoint,
    /// Tier classification.
    pub tier: EndpointTier,
    /// Rate limit (requests per second), 0 = unlimited.
    pub rate_limit: u32,
}

impl TieredEndpoint {
    /// Create a new tiered endpoint: as `RpcEndpoint::new`, no rate limit.
    pub fn new(url: &str, tier: EndpointTier) -> (r: Self)
        ensures
            r.tier == tier,
            r.rate_limit == 0,
            r.endpoint.url@ == url@,
            r.endpoint.name@ == url@,
            r.endpoint.ws_url is None,
            r.endpoint.priority == 100,
            r.endpoint.chain_id == 0,
            r.endpoint.capabilities == EndpointCapabilities::spec_unknown(),
    {
        TieredEndpoint { endpoint: RpcEndpoint::new(url), tier, rate_limit: 0 }
    }

    /// Set the endpoint name.
    pub fn with_name(self, name: &str) -> (r: Self)
        ensures
            r.endpoint.name@ == name@,
            r.endpoint == (RpcEndpoint { name: r.endpoint.name, ..self.endpoint }),
            r == (TieredEndpoint { endpoint: r.endpoint, ..self }),
    {
        let TieredEndpoint { endpoint, tier, rate_limit } = self;
        TieredEndpoint { endpoint: endpoint.with_name(name), tier, rate_limit }
    }

    /// Set the rate limit.
    pub fn with_rate_limit(self, rps: u32) -> (r: Self)
        ensures
            r == (TieredEndpoint { rate_limit: rps, ..self }),
    {
        let mut r = self;
        r.rate_limit = rps;
        r
    }

    /// Set the priority within the tier.
    pub fn with_priority(self, priority: u32) -> (r: Self)
        ensures
            r == (TieredEndpoint {
                endpoint: RpcEndpoint { priority, ..self.endpoint },
                ..self
            }),
    {
        let TieredEndpoint { endpoint, tier, rate_limit } = self;
        TieredEndpoint { endpoint: endpoint.with_priority(priority), tier, rate_limit }
    }

    /// Set the chain.
    pub fn with_chain_id(self, chain_id: u64) -> (r: Self)
        ensures
            r == (TieredEndpoint {
                endpoint: RpcEndpoint { chain_id, ..self.endpoint },
                ..self
            }),
    {
        let TieredEndpoint { endpoint, tier, rate_limit } = self;
        TieredEndpoint { endpoint: endpoint.with_chain_id(chain_id), tier, rate_limit }
    }
}

/// Configuration of a tiered pool.
pub struct TieredPoolConfig {
    /// Endpoints of all tiers.
    pub endpoints: Vec<TieredEndpoint>,
    /// Health check interval.
    pub health_check_interval: Duration,
    /// Number of consecutive errors before an endpoint is marked unhealthy.
    pub max_consecutive_errors: u32,
    /// Base delay before an unhealthy endpoint is probed again.
    pub retry_delay: Duration,
    /// Whether critical requests may fall back to lower tiers.
    pub allow_critical_fallback: bool,
    /// Whether low priority requests may move up to higher tiers.
    pub allow_low_escalation: bool,
}

impl Default for TieredPoolConfig {
    fn default() -> (r: Self)
        ensures
            r.endpoints@.len() == 0,
            duration_secs(r.health_check_interval) == 60,
            r.max_consecutive_errors == 3,
            duration_secs(r.retry_delay) == 5,
            r.allow_critical_fallback,
            !r.allow_low_escalation,
    {
        TieredPoolConfig {
            endpoints: Vec::new(),
            health_check_interval: Duration::from_secs(60),
            max_consecutive_errors: 3,
            retry_delay: Duration::from_secs(5),
            allow_critical_fallback: true,
            allow_low_escalation: false,
        }
    }
}

/// The tiers that a request of a priority may use, in the order in which
/// they are tried.
pub open spec fn tier_order_for(
    priority: RequestPriority,
    allow_critical_fallback: bool,
    allow_low_escalation: bool,
) -> Seq<EndpointTier> {
    match priority {
        RequestPriority::Critical => if allow_critical_fallback {
            seq![EndpointTier::Premium, EndpointTier::Standard, EndpointTier::Free]
        } else {
            seq![EndpointTier::Premium]
        },
        RequestPriority::Normal => seq![EndpointTier::Standard, EndpointTier::Free],
        RequestPriority::Low => if allow_low_escalation {
            seq![EndpointTier::Free, EndpointTier::Standard, EndpointTier::Premium]
        } else {
            seq![EndpointTier::Free]
        },
    }
}

/// The endpoints of one tier among the first `n` of a list, in their order.
pub open spec fn endpoints_of_tier(endpoints: Seq<TieredEndpoint>, tier: EndpointTier, n: nat) -> Seq<
    RpcEndpoint,
>
    decreases n,
{
    if n == 0 {
        Seq::empty()
    } else {
        let before = endpoints_of_tier(endpoints, tier, (n - 1) as nat);
        if endpoints[n - 1].tier == tier {
            before.push(endpoints[n - 1].endpoint)
        } else {
            before
        }
    }
}

/// Whether the URL of tiered endpoint `i` already occurs before position `i`.
pub open spec fn tiered_url_seen_before(endpoints: Seq<TieredEndpoint>, i: int) -> bool {
    exists|j: int| 0 <= j < i && (#[trigger] endpoints[j]).endpoint.url@ == endpoints[i].endpoint.url@
}

/// The first `n` tiered endpoints without those whose URL occurred before,
/// whatever their tier.
pub open spec fn dedup_tiered(endpoints: Seq<TieredEndpoint>, n: nat) -> Seq<TieredEndpoint>
    decreases n,
{
    if n == 0 {
        Seq::empty()
    } else {
        let before = dedup_tiered(endpoints, (n - 1) as nat);
        if tiered_url_seen_before(endpoints, n - 1) {
            before
        } else {
            before.push(endpoints[n - 1])
        }
    }
}

/// The priority of a free endpoint after the adjustment for its
/// capabilities: the sum, kept within the range of priorities.
pub open spec fn adjusted_priority(priority: u32, adjustment: int) -> u32 {
    if priority + adjustment < 0 {
        0
    } else if priority + adjustment > u32::MAX {
        u32::MAX
    } else {
        (priority + adjustment) as u32
    }
}

/// An endpoint as it enters the free tier: its priority adjusted by the
/// grade of its capabilities.
pub open spec fn as_free_endpoint(e: RpcEndpoint) -> TieredEndpoint {
    TieredEndpoint {
        endpoint: RpcEndpoint {
            priority: adjusted_priority(e.priority, e.capabilities.spec_priority_adjustment()),
            ..e
        },
        tier: EndpointTier::Free,
        rate_limit: 0,
    }
}

/// A list of tiered endpoints followed by the first `n` of a list of
/// endpoints as free endpoints.
pub open spec fn with_free_endpoints(
    list: Seq<TieredEndpoint>,
    added: Seq<RpcEndpoint>,
    n: nat,
) -> Seq<TieredEndpoint>
    decreases n,
{
    if n == 0 {
        list
    } else {
        with_free_endpoints(list, added, (n - 1) as nat).push(as_free_endpoint(added[n - 1]))
    }
}

/// A list of tiered endpoints followed by the endpoints of the first `n`
/// lists, one list after the other, as free endpoints.
pub open spec fn with_free_lists(
    list: Seq<TieredEndpoint>,
    added: Seq<Seq<RpcEndpoint>>,
    n: nat,
) -> Seq<TieredEndpoint>
    decreases n,
{
    if n == 0 {
        list
    } else {
        with_free_endpoints(
            with_free_lists(list, added, (n - 1) as nat),
            added[n - 1],
            added[n - 1].len(),
        )
    }
}

/// Whether the lists may be the default endpoints of the chains, list by
/// list.
pub open spec fn are_default_lists(lists: Seq<Seq<RpcEndpoint>>, chain_ids: Seq<u64>) -> bool {
    &&& lists.len() == chain_ids.len()
    &&& forall|k: int| 0 <= k < lists.len() ==> is_default_list(#[trigger] lists[k], chain_ids[k])
}

/// What the first `n` lists add depends on those lists alone.
proof fn lemma_with_free_lists_agree(
    list: Seq<TieredEndpoint>,
    a: Seq<Seq<RpcEndpoint>>,
    b: Seq<Seq<RpcEndpoint>>,
    n: nat,
)
    requires
        n <= a.len(),
        n <= b.len(),
        forall|k: int| 0 <= k < n ==> a[k] == b[k],
    ensures
        with_free_lists(list, a, n) == with_free_lists(list, b, n),
    decreases n,
{
    if n > 0 {
        lemma_with_free_lists_agree(list, a, b, (n - 1) as nat);
    }
}

/// What a tiered pool is, apart from the inner state of its strategies.
pub struct TieredPoolView {
    /// The pool of the premium tier, if the tier has endpoints.
    pub premium: Option<PoolView>,
    /// The pool of the standard tier, if the tier has endpoints.
    pub standard: Option<PoolView>,
    /// The pool of the free tier, if the tier has endpoints.
    pub free: Option<PoolView>,
    /// Whether critical requests may fall back to lower tiers.
    pub allow_critical_fallback: bool,
    /// Whether low priority requests may move up to higher tiers.
    pub allow_low_escalation: bool,
}

impl TieredPoolView {
    /// The pool of a tier.
    pub open spec fn tier(self, tier: EndpointTier) -> Option<PoolView> {
        match tier {
            EndpointTier::Premium => self.premium,
            EndpointTier::Standard => self.standard,
            EndpointTier::Free => self.free,
        }
    }
}

/// Number of endpoints per tier; a tier without a pool has no count.
#[derive(Debug, Clone, Copy)]
pub struct TierCounts {
    /// Endpoints of the premium tier.
    pub premium: Option<usize>,
    /// Endpoints of the standard tier.
    pub standard: Option<usize>,
    /// Endpoints of the free tier.
    pub free: Option<usize>,
}

impl TierCounts {
    /// The count of a tier.
    pub open spec fn spec_get(self, tier: EndpointTier) -> Option<usize> {
        match tier {
            EndpointTier::Premium => self.premium,
            EndpointTier::Standard => self.standard,
            EndpointTier::Free => self.free,
        }
    }

    /// The count of a tier.
    pub fn get(&self, tier: &EndpointTier) -> (r: Option<&usize>)
        ensures
            r is Some <==> self.spec_get(*tier) is Some,
            r matches Some(n) ==> self.spec_get(*tier) == Some(*n),
    {
        match tier {
            EndpointTier::Premium => self.premium.as_ref(),
            EndpointTier::Standard => self.standard.as_ref(),
            EndpointTier::Free => self.free.as_ref(),
        }
    }
}

/// The pool of a tier, by the strategy of the tier: failover for the premium
/// and the standard tier, selection by idle time for the free tier.
pub enum TierPool<'a> {
    /// A pool that selects by failover.
    Failover(&'a RpcPool<FailoverStrategy>),
    /// A pool that selects by idle time.
    RateAware(&'a RpcPool<RateAwareStrategy>),
}

impl<'a> View for TierPool<'a> {
    type V = PoolView;

    open spec fn view(&self) -> PoolView {
        match self {
            TierPool::Failover(pool) => pool@,
            TierPool::RateAware(pool) => pool@,
        }
    }
}

impl<'a> TierPool<'a> {
    /// Number of endpoints.
    pub fn endpoint_count(&self) -> (r: usize)
        ensures
            r == self@.endpoints.len(),
    {
        match self {
            TierPool::Failover(pool) => pool.endpoint_count(),
            TierPool::RateAware(pool) => pool.endpoint_count(),
        }
    }

    /// The URLs of all endpoints, in the order of the pool.
    pub fn get_all_urls(&self) -> (urls: Vec<String>)
        ensures
            urls@.len() == self@.endpoints.len(),
            forall|i: int| 0 <= i < urls@.len() ==> (#[trigger] urls@[i]) == self@.endpoints[i].url,
    {
        match self {
            TierPool::Failover(pool) => pool.get_all_urls(),
            TierPool::RateAware(pool) => pool.get_all_urls(),
        }
    }

    /// A copy of the statistics of the endpoint with this URL.
    pub fn endpoint_stats(&self, url: &str) -> (found: Option<EndpointStats>)
        ensures
            match found {
                Some(s) => self@.stats.contains_key(url@) && s == self@.stats[url@],
                None => !self@.stats.contains_key(url@),
            },
    {
        match self {
            TierPool::Failover(pool) => pool.endpoint_stats(url),
            TierPool::RateAware(pool) => pool.endpoint_stats(url),
        }
    }
}

/// Multi-tier pool with priority-based routing.
pub struct TieredPool {
    premium: Option<RpcPool<FailoverStrategy>>,
    standard: Option<RpcPool<FailoverStrategy>>,
    free: Option<RpcPool<RateAwareStrategy>>,
    allow_critical_fallback: bool,
    allow_low_escalation: bool,
}

/// The view of a pool that may be absent.
pub open spec fn optional_view<S: SelectionStrategy>(pool: Option<RpcPool<S>>) -> Option<PoolView> {
    match pool {
        Some(p) => Some(p@),
        None => None,
    }
}

impl View for TieredPool {
    type V = TieredPoolView;

    closed spec fn view(&self) -> TieredPoolView {
        TieredPoolView {
            premium: optional_view(self.premium),
            standard: optional_view(self.standard),
            free: optional_view(self.free),
            allow_critical_fallback: self.allow_critical_fallback,
            allow_low_escalation: self.allow_low_escalation,
        }
    }
}

/// Whether a pool that may be absent is a valid pool where it is present.
pub open spec fn optional_pool_wf(pool: Option<PoolView>) -> bool {
    match pool {
        Some(v) => crate::pool::pool_wf(v),
        None => true,
    }
}

/// Whether one of the listed tiers has a pool.
pub open spec fn some_tier_present(v: TieredPoolView, tiers: Seq<EndpointTier>) -> bool {
    exists|k: int| 0 <= k < tiers.len() && v.tier(#[trigger] tiers[k]) is Some
}

/// Whether one of the listed tiers has a pool that was shut down.
pub open spec fn some_tier_shut_down(v: TieredPoolView, tiers: Seq<EndpointTier>) -> bool {
    exists|k: int|
        0 <= k < tiers.len() && v.tier(#[trigger] tiers[k]) is Some && v.tier(tiers[k])->0.shutdown
}

/// No tier occurs twice in the order of a priority.
pub proof fn lemma_tier_orders_are_distinct(
    priority: RequestPriority,
    allow_critical_fallback: bool,
    allow_low_escalation: bool,
)
    ensures
        forall|i: int, j: int|
            0 <= i < j < tier_order_for(priority, allow_critical_fallback, allow_low_escalation).len()
                ==> tier_order_for(priority, allow_critical_fallback, allow_low_escalation)[i]
                != tier_order_for(priority, allow_critical_fallback, allow_low_escalation)[j],
{
}

/// Compute the tiers that a request of a priority may use, in the order in
/// which they are tried.
pub fn tiers_for(
    priority: RequestPriority,
    allow_critical_fallback: bool,
    allow_low_escalation: bool,
) -> (tiers: Vec<EndpointTier>)
    ensures
        tiers@ == tier_order_for(priority, allow_critical_fallback, allow_low_escalation),
{
    let tiers = match priority {
        RequestPriority::Critical => {
            if allow_critical_fallback {
                vec![EndpointTier::Premium, EndpointTier::Standard, EndpointTier::Free]
            } else {
                vec![EndpointTier::Premium]
            }
        },
        RequestPriority::Normal => vec![EndpointTier::Standard, EndpointTier::Free],
        RequestPriority::Low => {
            if allow_low_escalation {
                vec![EndpointTier::Free, EndpointTier::Standard, EndpointTier::Premium]
            } else {
                vec![EndpointTier::Free]
            }
        },
    };
    assert(tiers@ =~= tier_order_for(priority, allow_critical_fallback, allow_low_escalation));
    tiers
}

/// The endpoints of one tier, in their order.
fn collect_tier(endpoints: &Vec<TieredEndpoint>, tier: EndpointTier) -> (r: Vec<RpcEndpoint>)
    ensures
        r@ == endpoints_of_tier(endpoints@, tier, endpoints@.len()),
{
    let mut r: Vec<RpcEndpoint> = Vec::new();
    let mut i: usize = 0;
    while i < endpoints.len()
        invariant
            i <= endpoints@.len(),
            r@ == endpoints_of_tier(endpoints@, tier, i as nat),
        decreases endpoints@.len() - i,
    {
        if endpoints[i].tier == tier {
            r.push(endpoints[i].endpoint.duplicate());
        }
        i = i + 1;
    }
    r
}

/// Every endpoint of a list lies in one of the three tiers.
proof fn lemma_tiers_cover(endpoints: Seq<TieredEndpoint>, n: nat)
    requires
        n <= endpoints.len(),
    ensures
        endpoints_of_tier(endpoints, EndpointTier::Premium, n).len() + endpoints_of_tier(
            endpoints,
            EndpointTier::Standard,
            n,
        ).len() + endpoints_of_tier(endpoints, EndpointTier::Free, n).len() == n,
    decreases n,
{
    if n > 0 {
        lemma_tiers_cover(endpoints, (n - 1) as nat);
    }
}

/// Which tiers of a tiered pool have a pool.
#[derive(Debug, Clone, Copy)]
pub struct TierPresence {
    /// Whether the premium tier has a pool.
    pub premium: bool,
    /// Whether the standard tier has a pool.
    pub standard: bool,
    /// Whether the free tier has a pool.
    pub free: bool,
}

impl TierPresence {
    /// Whether a tier has a pool.
    pub open spec fn spec_has(self, tier: EndpointTier) -> bool {
        match tier {
            EndpointTier::Premium => self.premium,
            EndpointTier::Standard => self.standard,
            EndpointTier::Free => self.free,
        }
    }

    /// Whether a tier has a pool.
    pub fn has(&self, tier: EndpointTier) -> (r: bool)
        ensures
            r == self.spec_has(tier),
    {
        match tier {
            EndpointTier::Premium => self.premium,
            EndpointTier::Standard => self.standard,
            EndpointTier::Free => self.free,
        }
    }
}

/// How far one request has come on its way through the tiers: the tiers
/// that its priority allows, how many of them are behind it, and the error of
/// the last tier that failed.
pub struct TierRoute {
    tiers: Vec<EndpointTier>,
    position: usize,
    last_error: Option<RpcPoolError>,
}

/// What a route is.
pub struct TierRouteView {
    /// The tiers that the request may use, in the order in which they are
    /// tried.
    pub tiers: Seq<EndpointTier>,
    /// The number of tiers that are behind the request.
    pub position: int,
    /// The error of the last tier that failed.
    pub last_error: Option<RpcPoolError>,
}

impl View for TierRoute {
    type V = TierRouteView;

    closed spec fn view(&self) -> TierRouteView {
        TierRouteView {
            tiers: self.tiers@,
            position: self.position as int,
            last_error: self.last_error,
        }
    }
}

/// The error of a request that no tier answered: that of the last tier that
/// failed, or `NoEndpointsConfigured` where no tier was tried.
pub open spec fn route_error(last_error: Option<RpcPoolError>) -> RpcPoolError {
    match last_error {
        Some(e) => e,
        None => RpcPoolError::NoEndpointsConfigured,
    }
}

impl TierRoute {
    /// What holds of every route: it is not beyond its last tier.
    pub open spec fn wf(&self) -> bool {
        0 <= self@.position <= self@.tiers.len()
    }

    /// The route of a request that has tried nothing yet.
    pub open spec fn spec_new(
        priority: RequestPriority,
        allow_critical_fallback: bool,
        allow_low_escalation: bool,
    ) -> TierRouteView {
        TierRouteView {
            tiers: tier_order_for(priority, allow_critical_fallback, allow_low_escalation),
            position: 0,
            last_error: None,
        }
    }

    /// Start the way of a request of a priority through the tiers.
    pub fn new(
        priority: RequestPriority,
        allow_critical_fallback: bool,
        allow_low_escalation: bool,
    ) -> (r: Self)
        ensures
            r.wf(),
            r@ == TierRoute::spec_new(priority, allow_critical_fallback, allow_low_escalation),
    {
        TierRoute {
            tiers: tiers_for(priority, allow_critical_fallback, allow_low_escalation),
            position: 0,
            last_error: None,
        }
    }

    /// The next tier to try: the first tier that has a pool among those that
    /// are still ahead. Tiers without a pool are passed over. `None` when no
    /// tier with a pool is left.
    pub fn next_tier(&mut self, present: &TierPresence) -> (r: Option<EndpointTier>)
        requires
            old(self).wf(),
        ensures
            final(self).wf(),
            final(self)@.tiers == old(self)@.tiers,
            final(self)@.last_error == old(self)@.last_error,
            r is Some ==> old(self)@.position < final(self)@.position,
            r matches Some(tier) ==> tier == old(self)@.tiers[final(self)@.position - 1]
                && present.spec_has(tier),
            r is None ==> final(self)@.position == old(self)@.tiers.len(),
            forall|j: int|
                old(self)@.position <= j < final(self)@.position && !(r is Some && j
                    == final(self)@.position - 1) ==> !present.spec_has(
                    #[trigger] old(self)@.tiers[j],
                ),
    {
        while self.position < self.tiers.len()
            invariant
                self.wf(),
                self@.tiers == old(self)@.tiers,
                self@.last_error == old(self)@.last_error,
                old(self)@.position <= self@.position,
                forall|j: int|
                    old(self)@.position <= j < self@.position ==> !present.spec_has(
                        #[trigger] old(self)@.tiers[j],
                    ),
            decreases self@.tiers.len() - self@.position,
        {
            let tier = self.tiers[self.position];
            self.position = self.position + 1;
            if present.has(tier) {
                return Some(tier);
            }
        }
        None
    }

    /// Record that the tier that was tried last failed with this error.
    pub fn record_failure(&mut self, error: RpcPoolError)
        ensures
            final(self)@ == (TierRouteView { last_error: Some(error), ..old(self)@ }),
    {
        self.last_error = Some(error);
    }

    /// The error of the request, once no tier is left: that of the last tier
    /// that failed, or `NoEndpointsConfigured` where no tier had a pool.
    pub fn finish(self) -> (e: RpcPoolError)
        ensures
            e == route_error(self@.last_error),
    {
        match self.last_error {
            Some(e) => e,
            None => RpcPoolError::NoEndpointsConfigured,
        }
    }
}

/// Whether the pool of a tier, with the state of its strategy, is the same
/// in two tiered pools.
pub open spec fn tier_untouched(before: TieredPool, after: TieredPool, tier: EndpointTier) -> bool {
    match tier {
        EndpointTier::Premium => after.spec_premium() == before.spec_premium(),
        EndpointTier::Standard => after.spec_standard() == before.spec_standard(),
        EndpointTier::Free => after.spec_free() == before.spec_free(),
    }
}

/// Whether one request with this result was made on the pool of a tier, and
/// took that pool from its state in one tiered pool to its state in the
/// other (see `request_made`).
pub open spec fn tier_request<T, F: Fn(String) -> Result<T, String>>(
    f: F,
    before: TieredPool,
    after: TieredPool,
    tier: EndpointTier,
    r: Result<T, RpcPoolError>,
) -> bool {
    match tier {
        EndpointTier::Premium => {
            &&& before.spec_premium() is Some
            &&& after.spec_premium() is Some
            &&& request_made(
                f,
                before.spec_premium()->0.strategy(),
                before.spec_premium()->0@,
                after.spec_premium()->0.strategy(),
                after.spec_premium()->0@,
                r,
            )
        },
        EndpointTier::Standard => {
            &&& before.spec_standard() is Some
            &&& after.spec_standard() is Some
            &&& request_made(
                f,
                before.spec_standard()->0.strategy(),
                before.spec_standard()->0@,
                after.spec_standard()->0.strategy(),
                after.spec_standard()->0@,
                r,
            )
        },
        EndpointTier::Free => {
            &&& before.spec_free() is Some
            &&& after.spec_free() is Some
            &&& request_made(
                f,
                before.spec_free()->0.strategy(),
                before.spec_free()->0@,
                after.spec_free()->0.strategy(),
                after.spec_free()->0@,
                r,
            )
        },
    }
}

/// As `tier_request`, for an operation that gets parsed URLs.
pub open spec fn parsed_tier_request<T, F: Fn(url::Url) -> Result<T, String>>(
    f: F,
    before: TieredPool,
    after: TieredPool,
    tier: EndpointTier,
    r: Result<T, RpcPoolError>,
) -> bool {
    match tier {
        EndpointTier::Premium => {
            &&& before.spec_premium() is Some
            &&& after.spec_premium() is Some
            &&& parsed_request_made(
                f,
                before.spec_premium()->0.strategy(),
                before.spec_premium()->0@,
                after.spec_premium()->0.strategy(),
                after.spec_premium()->0@,
                r,
            )
        },
        EndpointTier::Standard => {
            &&& before.spec_standard() is Some
            &&& after.spec_standard() is Some
            &&& parsed_request_made(
                f,
                before.spec_standard()->0.strategy(),
                before.spec_standard()->0@,
                after.spec_standard()->0.strategy(),
                after.spec_standard()->0@,
                r,
            )
        },
        EndpointTier::Free => {
            &&& before.spec_free() is Some
            &&& after.spec_free() is Some
            &&& parsed_request_made(
                f,
                before.spec_free()->0.strategy(),
                before.spec_free()->0@,
                after.spec_free()->0.strategy(),
                after.spec_free()->0@,
                r,
            )
        },
    }
}

/// What a tier that did not answer looks like afterwards: one request was
/// made on its pool and failed, or it has no pool and is as it was.
pub open spec fn tier_failed<T, F: Fn(String) -> Result<T, String>>(
    f: F,
    before: TieredPool,
    after: TieredPool,
    tier: EndpointTier,
) -> bool {
    if before@.tier(tier) is Some {
        exists|e: RpcPoolError| #[trigger]
            tier_request(f, before, after, tier, Err::<T, RpcPoolError>(e))
    } else {
        tier_untouched(before, after, tier)
    }
}

/// As `tier_failed`, for an operation that gets parsed URLs.
pub open spec fn parsed_tier_failed<T, F: Fn(url::Url) -> Result<T, String>>(
    f: F,
    before: TieredPool,
    after: TieredPool,
    tier: EndpointTier,
) -> bool {
    if before@.tier(tier) is Some {
        exists|e: RpcPoolError| #[trigger]
            parsed_tier_request(f, before, after, tier, Err::<T, RpcPoolError>(e))
    } else {
        tier_untouched(before, after, tier)
    }
}

/// Whether position `j` holds the last of the listed tiers that has a pool.
pub open spec fn is_last_present(v: TieredPoolView, tiers: Seq<EndpointTier>, j: int) -> bool {
    &&& 0 <= j < tiers.len()
    &&& v.tier(tiers[j]) is Some
    &&& forall|i: int| j < i < tiers.len() ==> v.tier(#[trigger] tiers[i]) is None
}

/// Whether, of the first `n` tiers, the one at position `j` is the last that
/// has a pool, and the request on it failed with `e`.
pub open spec fn failed_last<T, F: Fn(String) -> Result<T, String>>(
    f: F,
    before: TieredPool,
    after: TieredPool,
    tiers: Seq<EndpointTier>,
    n: int,
    j: int,
    e: RpcPoolError,
) -> bool {
    &&& 0 <= j < n <= tiers.len()
    &&& before@.tier(tiers[j]) is Some
    &&& forall|i: int| j < i < n ==> before@.tier(#[trigger] tiers[i]) is None
    &&& tier_request(f, before, after, tiers[j], Err::<T, RpcPoolError>(e))
}

/// What one request does to a tiered pool, with `tiers` the tiers that its
/// priority allows, in their order.
///
/// The tiers before position `stop` did not answer: each that has a pool was
/// tried once and failed. The tiers after it are as they were. A request
/// that succeeds stops at the tier that answered, and that tier's pool
/// returned the result. A request that fails has gone through every tier;
/// its error is that of the last tier that has a pool, and
/// `NoEndpointsConfigured` where none has.
pub open spec fn routed<T, F: Fn(String) -> Result<T, String>>(
    f: F,
    before: TieredPool,
    after: TieredPool,
    tiers: Seq<EndpointTier>,
    stop: int,
    r: Result<T, RpcPoolError>,
) -> bool {
    &&& 0 <= stop <= tiers.len()
    &&& forall|j: int| 0 <= j < stop ==> tier_failed::<T, F>(f, before, after, #[trigger] tiers[j])
    &&& forall|j: int| stop < j < tiers.len() ==> tier_untouched(before, after, #[trigger] tiers[j])
    &&& r is Ok ==> stop < tiers.len() && tier_request(f, before, after, tiers[stop], r)
    &&& r is Err ==> {
        &&& stop == tiers.len()
        &&& some_tier_present(before@, tiers) ==> exists|j: int| #[trigger]
            is_last_present(before@, tiers, j) && tier_request(f, before, after, tiers[j], r)
        &&& !some_tier_present(before@, tiers) ==> r == Err::<T, RpcPoolError>(
            RpcPoolError::NoEndpointsConfigured,
        )
    }
}

/// As `routed`, for an operation that gets parsed URLs.
pub open spec fn parsed_routed<T, F: Fn(url::Url) -> Result<T, String>>(
    f: F,
    before: TieredPool,
    after: TieredPool,
    tiers: Seq<EndpointTier>,
    stop: int,
    r: Result<T, RpcPoolError>,
) -> bool {
    &&& 0 <= stop <= tiers.len()
    &&& forall|j: int|
        0 <= j < stop ==> parsed_tier_failed::<T, F>(f, before, after, #[trigger] tiers[j])
    &&& forall|j: int| stop < j < tiers.len() ==> tier_untouched(before, after, #[trigger] tiers[j])
    &&& r is Ok ==> stop < tiers.len() && parsed_tier_request(f, before, after, tiers[stop], r)
    &&& r is Err ==> {
        &&& stop == tiers.len()
        &&& some_tier_present(before@, tiers) ==> exists|j: int| #[trigger]
            is_last_present(before@, tiers, j) && parsed_tier_request(
                f,
                before,
                after,
                tiers[j],
                r,
            )
        &&& !some_tier_present(before@, tiers) ==> r == Err::<T, RpcPoolError>(
            RpcPoolError::NoEndpointsConfigured,
        )
    }
}

/// A tier that did not answer, and whose pool was not touched since, has
/// still not answered.
proof fn lemma_tier_failed_kept<T, F: Fn(String) -> Result<T, String>>(
    f: F,
    before: TieredPool,
    mid: TieredPool,
    after: TieredPool,
    tier: EndpointTier,
)
    requires
        tier_failed::<T, F>(f, before, mid, tier),
        tier_untouched(mid, after, tier),
    ensures
        tier_failed::<T, F>(f, before, after, tier),
{
    if before@.tier(tier) is Some {
        let e = choose|e: RpcPoolError| #[trigger]
            tier_request(f, before, mid, tier, Err::<T, RpcPoolError>(e));
        assert(tier_request(f, before, after, tier, Err::<T, RpcPoolError>(e)));
    }
}

/// Where none of the tiers from position `from` up to `to` has a pool, one
/// of the first `to` tiers has a pool just when one of the first `from` has.
proof fn lemma_present_in_longer(v: TieredPoolView, tiers: Seq<EndpointTier>, from: int, to: int)
    requires
        0 <= from <= to <= tiers.len(),
        forall|j: int| from <= j < to ==> v.tier(#[trigger] tiers[j]) is None,
    ensures
        some_tier_present(v, tiers.take(to)) <==> some_tier_present(v, tiers.take(from)),
{
    let shorter = tiers.take(from);
    let longer = tiers.take(to);
    if some_tier_present(v, shorter) {
        let j = choose|j: int| 0 <= j < shorter.len() && v.tier(#[trigger] shorter[j]) is Some;
        assert(longer[j] == shorter[j]);
    }
    if some_tier_present(v, longer) {
        let j = choose|j: int| 0 <= j < longer.len() && v.tier(#[trigger] longer[j]) is Some;
        assert(longer[j] == tiers[j]);
        assert(shorter[j] == longer[j]);
    }
}

/// A request on a tier made with an operation that parses the URL and hands
/// it on is a request on that tier that hands out parsed URLs.
proof fn lemma_tier_request_parsed<
    T,
    F: Fn(url::Url) -> Result<T, String>,
    G: Fn(String) -> Result<T, String>,
>(f: F, op: G, before: TieredPool, after: TieredPool, tier: EndpointTier, r: Result<T, RpcPoolError>)
    requires
        forall|u: String, outcome: Result<T, String>| #[trigger]
            op.ensures((u,), outcome) ==> by_parsed_url(f, u@, outcome),
        tier_request(op, before, after, tier, r),
    ensures
        parsed_tier_request(f, before, after, tier, r),
{
    match tier {
        EndpointTier::Premium => {
            lemma_request_made_parsed(
                f,
                op,
                before.spec_premium()->0.strategy(),
                before.spec_premium()->0@,
                after.spec_premium()->0.strategy(),
                after.spec_premium()->0@,
                r,
            );
        },
        EndpointTier::Standard => {
            lemma_request_made_parsed(
                f,
                op,
                before.spec_standard()->0.strategy(),
                before.spec_standard()->0@,
                after.spec_standard()->0.strategy(),
                after.spec_standard()->0@,
                r,
            );
        },
        EndpointTier::Free => {
            lemma_request_made_parsed(
                f,
                op,
                before.spec_free()->0.strategy(),
                before.spec_free()->0@,
                after.spec_free()->0.strategy(),
                after.spec_free()->0@,
                r,
            );
        },
    }
}

/// A request routed with an operation that parses the URL and hands it on
/// is a request routed with parsed URLs.
proof fn lemma_routed_parsed<
    T,
    F: Fn(url::Url) -> Result<T, String>,
    G: Fn(String) -> Result<T, String>,
>(
    f: F,
    op: G,
    before: TieredPool,
    after: TieredPool,
    tiers: Seq<EndpointTier>,
    stop: int,
    r: Result<T, RpcPoolError>,
)
    requires
        forall|u: String, outcome: Result<T, String>| #[trigger]
            op.ensures((u,), outcome) ==> by_parsed_url(f, u@, outcome),
        routed(op, before, after, tiers, stop, r),
    ensures
        parsed_routed(f, before, after, tiers, stop, r),
{
    assert forall|j: int| 0 <= j < stop implies parsed_tier_failed::<T, F>(
        f,
        before,
        after,
        #[trigger] tiers[j],
    ) by {
        assert(tier_failed::<T, G>(op, before, after, tiers[j]));
        if before@.tier(tiers[j]) is Some {
            let e = choose|e: RpcPoolError| #[trigger]
                tier_request(op, before, after, tiers[j], Err::<T, RpcPoolError>(e));
            lemma_tier_request_parsed(f, op, before, after, tiers[j], Err::<T, RpcPoolError>(e));
        }
    }
    if r is Ok {
        lemma_tier_request_parsed(f, op, before, after, tiers[stop], r);
    }
    if r is Err && some_tier_present(before@, tiers) {
        let j = choose|j: int| #[trigger]
            is_last_present(before@, tiers, j) && tier_request(op, before, after, tiers[j], r);
        lemma_tier_request_parsed(f, op, before, after, tiers[j], r);
    }
}

impl TieredPool {
    /// The pool of the premium tier.
    pub closed spec fn spec_premium(&self) -> Option<RpcPool<FailoverStrategy>> {
        self.premium
    }

    /// The pool of the standard tier.
    pub closed spec fn spec_standard(&self) -> Option<RpcPool<FailoverStrategy>> {
        self.standard
    }

    /// The pool of the free tier.
    pub closed spec fn spec_free(&self) -> Option<RpcPool<RateAwareStrategy>> {
        self.free
    }

    /// The pools of the tiers are those that the view shows.
    pub proof fn lemma_view_shows_pools(&self)
        ensures
            self@.premium == optional_view(self.spec_premium()),
            self@.standard == optional_view(self.spec_standard()),
            self@.free == optional_view(self.spec_free()),
    {
    }

    /// What holds of every tiered pool: each pool that is there is a valid
    /// pool.
    pub open spec fn wf(&self) -> bool {
        &&& optional_pool_wf(self@.premium)
        &&& optional_pool_wf(self@.standard)
        &&& optional_pool_wf(self@.free)
    }

    /// The pool of one tier of a configuration, with the strategy given;
    /// none for a tier without endpoints.
    fn tier_pool<S: SelectionStrategy>(config: &TieredPoolConfig, tier: EndpointTier, strategy: S) -> (r:
        Option<RpcPool<S>>)
        ensures
            r is None <==> endpoints_of_tier(config.endpoints@, tier, config.endpoints@.len()).len()
                == 0,
            r matches Some(pool) ==> {
                &&& pool.wf()
                &&& pool.strategy() == strategy
                &&& pool@.endpoints == pool_order(
                    endpoints_of_tier(config.endpoints@, tier, config.endpoints@.len()),
                )
                &&& pool@.max_consecutive_errors == config.max_consecutive_errors
                &&& pool@.retry_delay == config.retry_delay
                &&& pool@.health_check_interval == config.health_check_interval
                &&& pool@.total_requests == 0
                &&& pool@.failovers == 0
                &&& !pool@.shutdown
            },
    {
        let endpoints = collect_tier(&config.endpoints, tier);
        if endpoints.len() == 0 {
            return None;
        }
        let pool_config = RpcPoolConfig::new().with_endpoints(endpoints).with_strategy(
            strategy,
        ).with_health_check_interval(config.health_check_interval).with_max_consecutive_errors(
            config.max_consecutive_errors,
        ).with_retry_delay(config.retry_delay);
        match RpcPool::new(pool_config) {
            Ok(pool) => Some(pool),
            Err(_) => None,
        }
    }

    /// Create a tiered pool: one pool for each tier that has endpoints. The
    /// premium and the standard tier select by failover, the free tier by
    /// idle time. A configuration without endpoints is refused.
    pub fn new(config: TieredPoolConfig) -> (r: Result<Self, RpcPoolError>)
        ensures
            config.endpoints@.len() == 0 <==> r is Err,
            r matches Err(e) ==> e == RpcPoolError::NoEndpointsConfigured,
            r matches Ok(pool) ==> {
                &&& pool.wf()
                &&& pool@.allow_critical_fallback == config.allow_critical_fallback
                &&& pool@.allow_low_escalation == config.allow_low_escalation
                &&& pool.spec_free() matches Some(free) ==> free.strategy().used() == Set::<
                    Seq<char>,
                >::empty() && duration_secs(free.strategy().spec_min_interval()) == 1
                &&& forall|tier: EndpointTier| #[trigger]
                    pool@.tier(tier) is None <==> endpoints_of_tier(
                        config.endpoints@,
                        tier,
                        config.endpoints@.len(),
                    ).len() == 0
                &&& forall|tier: EndpointTier| #[trigger]
                    pool@.tier(tier) matches Some(v) ==> {
                        &&& v.endpoints == pool_order(
                            endpoints_of_tier(config.endpoints@, tier, config.endpoints@.len()),
                        )
                        &&& v.max_consecutive_errors == config.max_consecutive_errors
                        &&& v.retry_delay == config.retry_delay
                        &&& v.health_check_interval == config.health_check_interval
                        &&& v.total_requests == 0
                        &&& v.failovers == 0
                        &&& !v.shutdown
                    }
            },
    {
        if config.endpoints.len() == 0 {
            return Err(RpcPoolError::NoEndpointsConfigured);
        }
        let premium = TieredPool::tier_pool(&config, EndpointTier::Premium, FailoverStrategy);
        let standard = TieredPool::tier_pool(&config, EndpointTier::Standard, FailoverStrategy);
        let free = TieredPool::tier_pool(&config, EndpointTier::Free, RateAwareStrategy::new());
        Ok(
            TieredPool {
                premium,
                standard,
                free,
                allow_critical_fallback: config.allow_critical_fallback,
                allow_low_escalation: config.allow_low_escalation,
            },
        )
    }

    /// The tiers that a request of this priority may use, in the order in
    /// which they are tried.
    pub fn tier_order(&self, priority: RequestPriority) -> (tiers: Vec<EndpointTier>)
        ensures
            tiers@ == tier_order_for(
                priority,
                self@.allow_critical_fallback,
                self@.allow_low_escalation,
            ),
    {
        tiers_for(priority, self.allow_critical_fallback, self.allow_low_escalation)
    }

    /// Whether critical requests may fall back to lower tiers.
    pub fn allows_critical_fallback(&self) -> (r: bool)
        ensures
            r == self@.allow_critical_fallback,
    {
        self.allow_critical_fallback
    }

    /// Whether low priority requests may move up to higher tiers.
    pub fn allows_low_escalation(&self) -> (r: bool)
        ensures
            r == self@.allow_low_escalation,
    {
        self.allow_low_escalation
    }

    /// The pool of a tier.
    pub fn get_tier_pool(&self, tier: EndpointTier) -> (r: Option<TierPool<'_>>)
        ensures
            r is Some <==> self@.tier(tier) is Some,
            r matches Some(pool) ==> Some(pool@) == self@.tier(tier),
            r matches Some(pool) ==> (pool is RateAware <==> tier == EndpointTier::Free),
    {
        match tier {
            EndpointTier::Premium => match &self.premium {
                Some(pool) => Some(TierPool::Failover(pool)),
                None => None,
            },
            EndpointTier::Standard => match &self.standard {
                Some(pool) => Some(TierPool::Failover(pool)),
                None => None,
            },
            EndpointTier::Free => match &self.free {
                Some(pool) => Some(TierPool::RateAware(pool)),
                None => None,
            },
        }
    }

    /// The pool of the premium tier, which selects by failover.
    pub fn premium_pool(&self) -> (r: Option<&RpcPool<FailoverStrategy>>)
        ensures
            r is Some <==> self@.premium is Some,
            r matches Some(pool) ==> Some(pool@) == self@.premium && Some(*pool)
                == self.spec_premium(),
    {
        self.premium.as_ref()
    }

    /// The pool of the standard tier, which selects by failover.
    pub fn standard_pool(&self) -> (r: Option<&RpcPool<FailoverStrategy>>)
        ensures
            r is Some <==> self@.standard is Some,
            r matches Some(pool) ==> Some(pool@) == self@.standard && Some(*pool)
                == self.spec_standard(),
    {
        self.standard.as_ref()
    }

    /// The pool of the free tier, which selects by idle time.
    pub fn free_pool(&self) -> (r: Option<&RpcPool<RateAwareStrategy>>)
        ensures
            r is Some <==> self@.free is Some,
            r matches Some(pool) ==> Some(pool@) == self@.free && Some(*pool) == self.spec_free(),
    {
        self.free.as_ref()
    }

    /// Whether a tier has a pool.
    pub fn has_tier(&self, tier: EndpointTier) -> (r: bool)
        ensures
            r == self@.tier(tier) is Some,
    {
        match tier {
            EndpointTier::Premium => self.premium.is_some(),
            EndpointTier::Standard => self.standard.is_some(),
            EndpointTier::Free => self.free.is_some(),
        }
    }

    /// The tiers that have a pool, from premium to free.
    pub fn available_tiers(&self) -> (tiers: Vec<EndpointTier>)
        ensures
            forall|tier: EndpointTier| tiers@.contains(tier) <==> #[trigger] self@.tier(tier) is Some,
            forall|i: int, j: int|
                0 <= i < j < tiers@.len() ==> (tiers@[i] == EndpointTier::Premium || tiers@[j]
                    == EndpointTier::Free) && tiers@[i] != tiers@[j],
    {
        let mut tiers: Vec<EndpointTier> = Vec::new();
        if self.premium.is_some() {
            tiers.push(EndpointTier::Premium);
        }
        if self.standard.is_some() {
            tiers.push(EndpointTier::Standard);
        }
        if self.free.is_some() {
            tiers.push(EndpointTier::Free);
        }
        proof {
            assert forall|tier: EndpointTier| tiers@.contains(tier) <==> #[trigger] self@.tier(
                tier,
            ) is Some by {
                if self@.tier(tier) is Some {
                    match tier {
                        EndpointTier::Premium => {
                            assert(tiers@[0] == tier);
                        },
                        EndpointTier::Standard => {
                            if self.premium is Some {
                                assert(tiers@[1] == tier);
                            } else {
                                assert(tiers@[0] == tier);
                            }
                        },
                        EndpointTier::Free => {
                            assert(tiers@[tiers@.len() - 1] == tier);
                        },
                    }
                }
            }
        }
        tiers
    }

    /// The number of endpoints of each tier.
    pub fn tier_endpoint_counts(&self) -> (counts: TierCounts)
        ensures
            counts.premium is Some <==> self@.premium is Some,
            counts.standard is Some <==> self@.standard is Some,
            counts.free is Some <==> self@.free is Some,
            counts.premium matches Some(n) ==> n == self@.premium->0.endpoints.len(),
            counts.standard matches Some(n) ==> n == self@.standard->0.endpoints.len(),
            counts.free matches Some(n) ==> n == self@.free->0.endpoints.len(),
    {
        TierCounts {
            premium: match &self.premium {
                Some(p) => Some(p.endpoint_count()),
                None => None,
            },
            standard: match &self.standard {
                Some(p) => Some(p.endpoint_count()),
                None => None,
            },
            free: match &self.free {
                Some(p) => Some(p.endpoint_count()),
                None => None,
            },
        }
    }

    /// Take the tiered pool apart into the pools of the premium, the
    /// standard and the free tier.
    pub fn into_pools(self) -> (pools: (
        Option<RpcPool<FailoverStrategy>>,
        Option<RpcPool<FailoverStrategy>>,
        Option<RpcPool<RateAwareStrategy>>,
    ))
        ensures
            pools.0 == self.spec_premium(),
            pools.1 == self.spec_standard(),
            pools.2 == self.spec_free(),
            optional_view(pools.0) == self@.premium,
            optional_view(pools.1) == self@.standard,
            optional_view(pools.2) == self@.free,
    {
        (self.premium, self.standard, self.free)
    }

    /// Which tiers have a pool.
    pub fn presence(&self) -> (present: TierPresence)
        ensures
            forall|tier: EndpointTier| #[trigger]
                present.spec_has(tier) <==> self@.tier(tier) is Some,
    {
        TierPresence {
            premium: self.premium.is_some(),
            standard: self.standard.is_some(),
            free: self.free.is_some(),
        }
    }

    /// Start the way of one request through the tiers.
    pub fn begin_route(&self, priority: RequestPriority) -> (route: TierRoute)
        ensures
            route.wf(),
            route@ == TierRoute::spec_new(
                priority,
                self@.allow_critical_fallback,
                self@.allow_low_escalation,
            ),
    {
        TierRoute::new(priority, self.allow_critical_fallback, self.allow_low_escalation)
    }

    /// Run a request on the pool of one tier, if the tier has one.
    fn execute_on_tier<T, F: Fn(String) -> Result<T, String>>(
        &mut self,
        tier: EndpointTier,
        f: &F,
    ) -> (r: Option<Result<T, RpcPoolError>>)
        requires
            old(self).wf(),
            forall|u: String| #[trigger] f.requires((u,)),
        ensures
            final(self).wf(),
            r is Some <==> old(self)@.tier(tier) is Some,
            final(self)@.allow_critical_fallback == old(self)@.allow_critical_fallback,
            final(self)@.allow_low_escalation == old(self)@.allow_low_escalation,
            forall|other: EndpointTier|
                other != tier ==> #[trigger] tier_untouched(*old(self), *final(self), other),
            r is None ==> tier_untouched(*old(self), *final(self), tier),
            final(self)@.tier(tier) is Some <==> old(self)@.tier(tier) is Some,
            r matches Some(outcome) ==> tier_request(*f, *old(self), *final(self), tier, outcome),
            r matches Some(Ok(v)) ==> exists|u: String| #[trigger] f.ensures((u,), Ok(v)),
            r matches Some(Err(e)) ==> e is PoolShutdown || e is AllEndpointsFailed,
            r matches Some(Err(RpcPoolError::AllEndpointsFailed(msg))) ==> exists|url: Seq<char>|
                #[trigger] op_failed(*f, url, msg@),
            r matches Some(Err(RpcPoolError::PoolShutdown)) ==> old(self)@.tier(tier)->0.shutdown,
    {
        let ghost before = *self;
        let r = match tier {
            EndpointTier::Premium => match &mut self.premium {
                Some(pool) => Some(pool.execute_with_url(f)),
                None => None,
            },
            EndpointTier::Standard => match &mut self.standard {
                Some(pool) => Some(pool.execute_with_url(f)),
                None => None,
            },
            EndpointTier::Free => match &mut self.free {
                Some(pool) => Some(pool.execute_with_url(f)),
                None => None,
            },
        };
        proof {
            match &r {
                Some(Err(RpcPoolError::AllEndpointsFailed(msg))) => {
                    let url = choose|url: Seq<char>| #[trigger] op_failed(f, url, msg@);
                    let (u, m) = choose|u: String, m: String| #[trigger]
                        f.ensures((u,), Err(m)) && u@ == url && msg@ == truncated_message(m@);
                    assert((*f).ensures((u,), Err(m)));
                    assert(op_failed(*f, url, msg@));
                },
                _ => {},
            }
            if r is Some {
                match tier {
                    EndpointTier::Premium => {
                        lemma_request_made_by_ref(
                            f,
                            before.premium->0.strategy(),
                            before.premium->0@,
                            self.premium->0.strategy(),
                            self.premium->0@,
                            r->0,
                        );
                    },
                    EndpointTier::Standard => {
                        lemma_request_made_by_ref(
                            f,
                            before.standard->0.strategy(),
                            before.standard->0@,
                            self.standard->0.strategy(),
                            self.standard->0@,
                            r->0,
                        );
                    },
                    EndpointTier::Free => {
                        lemma_request_made_by_ref(
                            f,
                            before.free->0.strategy(),
                            before.free->0@,
                            self.free->0.strategy(),
                            self.free->0@,
                            r->0,
                        );
                    },
                }
            }
        }
        r
    }

    /// Execute a request with the given priority; the operation gets the URL
    /// of an endpoint.
    ///
    /// The tiers that the priority allows are tried in their order; tiers
    /// without a pool are skipped. Within a tier the pool fails over across
    /// its endpoints. The first success is returned, and the tiers after it
    /// are left as they were; when every tier has failed, the error of the
    /// last tier that has a pool is returned. Without any pool among the
    /// allowed tiers the request fails with `NoEndpointsConfigured` and no
    /// pool is touched.
    pub fn execute_with_url<T, F: Fn(String) -> Result<T, String>>(
        &mut self,
        priority: RequestPriority,
        f: F,
    ) -> (r: Result<T, RpcPoolError>)
        requires
            old(self).wf(),
            forall|u: String| #[trigger] f.requires((u,)),
        ensures
            final(self).wf(),
            final(self)@.allow_critical_fallback == old(self)@.allow_critical_fallback,
            final(self)@.allow_low_escalation == old(self)@.allow_low_escalation,
            forall|tier: EndpointTier| #[trigger]
                final(self)@.tier(tier) is Some <==> old(self)@.tier(tier) is Some,
            forall|tier: EndpointTier|
                !tier_order_for(
                    priority,
                    old(self)@.allow_critical_fallback,
                    old(self)@.allow_low_escalation,
                ).contains(tier) ==> #[trigger] tier_untouched(*old(self), *final(self), tier),
            exists|stop: int| #[trigger]
                routed(
                    f,
                    *old(self),
                    *final(self),
                    tier_order_for(
                        priority,
                        old(self)@.allow_critical_fallback,
                        old(self)@.allow_low_escalation,
                    ),
                    stop,
                    r,
                ),
            r matches Ok(v) ==> exists|u: String| #[trigger] f.ensures((u,), Ok(v)),
            r matches Err(e) ==> e is NoEndpointsConfigured || e is PoolShutdown
                || e is AllEndpointsFailed,
            r matches Err(RpcPoolError::AllEndpointsFailed(msg)) ==> exists|url: Seq<char>|
                #[trigger] op_failed(f, url, msg@),
            !some_tier_present(
                old(self)@,
                tier_order_for(
                    priority,
                    old(self)@.allow_critical_fallback,
                    old(self)@.allow_low_escalation,
                ),
            ) <==> r matches Err(RpcPoolError::NoEndpointsConfigured),
            r matches Err(RpcPoolError::NoEndpointsConfigured) ==> final(self)@ == old(self)@,
    {
        let mut route = self.begin_route(priority);
        let present = self.presence();
        let ghost tiers = route@.tiers;
        proof {
            assert(tiers.take(0) =~= Seq::<EndpointTier>::empty());
            lemma_tier_orders_are_distinct(
                priority,
                old(self)@.allow_critical_fallback,
                old(self)@.allow_low_escalation,
            );
        }
        loop
            invariant
                route.wf(),
                route@.tiers == tiers,
                tiers == tier_order_for(
                    priority,
                    old(self)@.allow_critical_fallback,
                    old(self)@.allow_low_escalation,
                ),
                forall|i: int, j: int| 0 <= i < j < tiers.len() ==> tiers[i] != tiers[j],
                self.wf(),
                self@.allow_critical_fallback == old(self)@.allow_critical_fallback,
                self@.allow_low_escalation == old(self)@.allow_low_escalation,
                forall|tier: EndpointTier| #[trigger]
                    present.spec_has(tier) <==> old(self)@.tier(tier) is Some,
                forall|tier: EndpointTier| #[trigger]
                    self@.tier(tier) is Some <==> old(self)@.tier(tier) is Some,
                forall|tier: EndpointTier|
                    !tiers.contains(tier) ==> #[trigger] tier_untouched(*old(self), *self, tier),
                forall|j: int|
                    0 <= j < route@.position ==> tier_failed::<T, F>(
                        f,
                        *old(self),
                        *self,
                        #[trigger] tiers[j],
                    ),
                forall|j: int|
                    route@.position <= j < tiers.len() ==> tier_untouched(
                        *old(self),
                        *self,
                        #[trigger] tiers[j],
                    ),
                route@.last_error is None <==> !some_tier_present(
                    old(self)@,
                    tiers.take(route@.position),
                ),
                route@.last_error is None ==> self@ == old(self)@,
                route@.last_error matches Some(e) ==> e is PoolShutdown || e is AllEndpointsFailed,
                route@.last_error matches Some(RpcPoolError::AllEndpointsFailed(msg)) ==> exists|
                    url: Seq<char>,
                | #[trigger] op_failed(f, url, msg@),
                route@.last_error matches Some(e) ==> exists|j: int| #[trigger]
                    failed_last(f, *old(self), *self, tiers, route@.position, j, e),
                forall|u: String| #[trigger] f.requires((u,)),
            decreases tiers.len() - route@.position,
        {
            let ghost from = route@.position;
            let ghost earlier = *self;
            let ghost earlier_error = route@.last_error;
            match route.next_tier(&present) {
                None => {
                    proof {
                        let n = tiers.len() as int;
                        assert(tiers.take(n) =~= tiers);
                        lemma_present_in_longer(old(self)@, tiers, from, n);
                        assert forall|j: int| 0 <= j < n implies tier_failed::<T, F>(
                            f,
                            *old(self),
                            *self,
                            #[trigger] tiers[j],
                        ) by {
                            if j >= from {
                                assert(!present.spec_has(tiers[j]));
                            }
                        }
                        if let Some(e) = route@.last_error {
                            let j = choose|j: int| #[trigger]
                                failed_last(f, *old(self), *self, tiers, from, j, e);
                            assert forall|i: int| j < i < n implies old(self)@.tier(
                                #[trigger] tiers[i],
                            ) is None by {
                                if i >= from {
                                    assert(!present.spec_has(tiers[i]));
                                }
                            }
                            assert(is_last_present(old(self)@, tiers, j));
                            assert(some_tier_present(old(self)@, tiers));
                        }
                    }
                    let e = route.finish();
                    let r = Err(e);
                    proof {
                        assert(routed(f, *old(self), *self, tiers, tiers.len() as int, r));
                    }
                    return r;
                },
                Some(tier) => {
                    let ghost k = route@.position - 1;
                    proof {
                        assert(tiers[k] == tier);
                        assert(tiers.contains(tier));
                        assert(present.spec_has(tier));
                        lemma_present_in_longer(old(self)@, tiers, from, k);
                        assert(tiers.take(k + 1) =~= tiers.take(k).push(tier));
                        assert(some_tier_present(old(self)@, tiers.take(k + 1))) by {
                            assert(tiers.take(k + 1)[k] == tier);
                        }
                        assert(some_tier_present(old(self)@, tiers));
                        assert(tier_untouched(*old(self), earlier, tiers[k]));
                    }
                    let outcome = self.execute_on_tier(tier, &f);
                    proof {
                        assert(outcome is Some);
                        assert(tier_request(f, *old(self), *self, tier, outcome->0));
                        assert forall|other: EndpointTier| #[trigger]
                            self@.tier(other) is Some <==> old(self)@.tier(other) is Some by {
                            assert(earlier@.tier(other) is Some <==> old(self)@.tier(other) is Some);
                            if other != tier {
                                assert(tier_untouched(earlier, *self, other));
                                assert(self@.tier(other) == earlier@.tier(other));
                            }
                        }
                        assert forall|j: int| 0 <= j < k implies tier_failed::<T, F>(
                            f,
                            *old(self),
                            *self,
                            #[trigger] tiers[j],
                        ) by {
                            assert(tiers[j] != tier);
                            assert(tier_untouched(earlier, *self, tiers[j]));
                            if j < from {
                                assert(tier_failed::<T, F>(f, *old(self), earlier, tiers[j]));
                                lemma_tier_failed_kept::<T, F>(
                                    f,
                                    *old(self),
                                    earlier,
                                    *self,
                                    tiers[j],
                                );
                            } else {
                                assert(!present.spec_has(tiers[j]));
                                assert(tier_untouched(*old(self), earlier, tiers[j]));
                            }
                        }
                        assert forall|j: int| k < j < tiers.len() implies tier_untouched(
                            *old(self),
                            *self,
                            #[trigger] tiers[j],
                        ) by {
                            assert(tiers[j] != tier);
                            assert(tier_untouched(earlier, *self, tiers[j]));
                            assert(tier_untouched(*old(self), earlier, tiers[j]));
                        }
                        assert forall|other: EndpointTier|
                            !tiers.contains(other) implies #[trigger] tier_untouched(
                            *old(self),
                            *self,
                            other,
                        ) by {
                            assert(other != tier);
                            assert(tier_untouched(earlier, *self, other));
                            assert(tier_untouched(*old(self), earlier, other));
                        }
                    }
                    match outcome {
                        Some(Ok(value)) => {
                            let r = Ok(value);
                            proof {
                                assert(routed(f, *old(self), *self, tiers, k, r));
                            }
                            return r;
                        },
                        Some(Err(e)) => {
                            proof {
                                assert(tier_request(
                                    f,
                                    *old(self),
                                    *self,
                                    tiers[k],
                                    Err::<T, RpcPoolError>(e),
                                ));
                                assert(tier_failed::<T, F>(f, *old(self), *self, tiers[k]));
                            }
                            route.record_failure(e);
                            proof {
                                assert(route@.position == k + 1);
                                assert(failed_last(f, *old(self), *self, tiers, k + 1, k, e));
                            }
                        },
                        None => {},
                    }
                },
            }
        }
    }

    /// Execute a request with the given priority; the operation gets the
    /// parsed URL of an endpoint. As `execute_with_url`, with an endpoint whose
    /// URL does not parse counted as failed.
    pub fn execute<T, F: Fn(url::Url) -> Result<T, String>>(
        &mut self,
        priority: RequestPriority,
        f: F,
    ) -> (r: Result<T, RpcPoolError>)
        requires
            old(self).wf(),
            forall|u: url::Url| #[trigger] f.requires((u,)),
        ensures
            final(self).wf(),
            final(self)@.allow_critical_fallback == old(self)@.allow_critical_fallback,
            final(self)@.allow_low_escalation == old(self)@.allow_low_escalation,
            forall|tier: EndpointTier| #[trigger]
                final(self)@.tier(tier) is Some <==> old(self)@.tier(tier) is Some,
            forall|tier: EndpointTier|
                !tier_order_for(
                    priority,
                    old(self)@.allow_critical_fallback,
                    old(self)@.allow_low_escalation,
                ).contains(tier) ==> #[trigger] tier_untouched(*old(self), *final(self), tier),
            exists|stop: int| #[trigger]
                parsed_routed(
                    f,
                    *old(self),
                    *final(self),
                    tier_order_for(
                        priority,
                        old(self)@.allow_critical_fallback,
                        old(self)@.allow_low_escalation,
                    ),
                    stop,
                    r,
                ),
            r matches Ok(v) ==> exists|u: url::Url| #[trigger] f.ensures((u,), Ok(v)),
            r matches Err(e) ==> e is NoEndpointsConfigured || e is PoolShutdown
                || e is AllEndpointsFailed,
            r matches Err(RpcPoolError::AllEndpointsFailed(msg)) ==> exists|url: Seq<char>|
                #[trigger] parsed_op_failed(f, url, msg@),
            !some_tier_present(
                old(self)@,
                tier_order_for(
                    priority,
                    old(self)@.allow_critical_fallback,
                    old(self)@.allow_low_escalation,
                ),
            ) <==> r matches Err(RpcPoolError::NoEndpointsConfigured),
            r matches Err(RpcPoolError::NoEndpointsConfigured) ==> final(self)@ == old(self)@,
    {
        let inner = &f;
        let op = |text: String| -> (outcome: Result<T, String>)
            requires
                forall|u: url::Url| #[trigger] inner.requires((u,)),
            ensures
                by_parsed_url(*inner, text@, outcome),
            {
                match parse_url(text.as_str()) {
                    Ok(url) => inner(url),
                    Err(e) => Err(
                        String::from_str("Invalid URL: ").concat(parse_error_text(&e).as_str()),
                    ),
                }
            };
        let r = self.execute_with_url(priority, op);
        proof {
            match &r {
                Ok(value) => {
                    let u = choose|u: String| #[trigger] op.ensures((u,), Ok::<T, String>(*value));
                    assert(by_parsed_url(f, u@, Ok::<T, String>(*value)));
                },
                Err(RpcPoolError::AllEndpointsFailed(msg)) => {
                    let url = choose|url: Seq<char>| #[trigger] op_failed(op, url, msg@);
                    let (u, m) = choose|u: String, m: String| #[trigger]
                        op.ensures((u,), Err(m)) && u@ == url && msg@ == truncated_message(m@);
                    assert(by_parsed_url(f, url, Err::<T, String>(m)));
                    assert(parsed_op_failed(f, url, msg@));
                },
                _ => {},
            }
            let tiers = tier_order_for(
                priority,
                old(self)@.allow_critical_fallback,
                old(self)@.allow_low_escalation,
            );
            let stop = choose|stop: int| #[trigger]
                routed(op, *old(self), *self, tiers, stop, r);
            lemma_routed_parsed(f, op, *old(self), *self, tiers, stop, r);
        }
        r
    }
}


/// What a builder has collected so far.
pub struct BuilderView {
    /// The endpoints added so far, in the order in which they were added.
    pub endpoints: Seq<TieredEndpoint>,
    /// Health check interval.
    pub health_check_interval: Duration,
    /// Number of consecutive errors before an endpoint is marked unhealthy.
    pub max_consecutive_errors: u32,
    /// Base delay before an unhealthy endpoint is probed again.
    pub retry_delay: Duration,
    /// Whether critical requests may fall back to lower tiers.
    pub allow_critical_fallback: bool,
    /// Whether low priority requests may move up to higher tiers.
    pub allow_low_escalation: bool,
}

/// Builder for tiered pools.
pub struct TieredPoolBuilder {
    endpoints: Vec<TieredEndpoint>,
    health_check_interval: Duration,
    max_consecutive_errors: u32,
    retry_delay: Duration,
    allow_critical_fallback: bool,
    allow_low_escalation: bool,
}

impl View for TieredPoolBuilder {
    type V = BuilderView;

    closed spec fn view(&self) -> BuilderView {
        BuilderView {
            endpoints: self.endpoints@,
            health_check_interval: self.health_check_interval,
            max_consecutive_errors: self.max_consecutive_errors,
            retry_delay: self.retry_delay,
            allow_critical_fallback: self.allow_critical_fallback,
            allow_low_escalation: self.allow_low_escalation,
        }
    }
}

/// Whether a tiered endpoint is the plain one of a tier: the given URL, name
/// and priority, and nothing else set.
pub open spec fn is_plain_entry(
    e: TieredEndpoint,
    url: Seq<char>,
    name: Seq<char>,
    tier: EndpointTier,
    priority: u32,
) -> bool {
    &&& e.tier == tier
    &&& e.rate_limit == 0
    &&& e.endpoint.url@ == url
    &&& e.endpoint.name@ == name
    &&& e.endpoint.ws_url is None
    &&& e.endpoint.priority == priority
    &&& e.endpoint.chain_id == 0
    &&& e.endpoint.capabilities == EndpointCapabilities::spec_unknown()
}

/// Compute the priority of a free endpoint after the adjustment for its
/// capabilities.
pub fn adjust_priority(priority: u32, adjustment: i32) -> (r: u32)
    ensures
        r == adjusted_priority(priority, adjustment as int),
{
    let sum: i64 = priority as i64 + adjustment as i64;
    if sum < 0 {
        0
    } else if sum > u32::MAX as i64 {
        u32::MAX
    } else {
        sum as u32
    }
}

/// Removing duplicates from a list that is not empty leaves a list that is
/// not empty, and no longer than the input.
proof fn lemma_dedup_tiered_len(endpoints: Seq<TieredEndpoint>, n: nat)
    requires
        n <= endpoints.len(),
    ensures
        dedup_tiered(endpoints, n).len() <= n,
        n > 0 ==> dedup_tiered(endpoints, n).len() > 0,
    decreases n,
{
    if n > 0 {
        lemma_dedup_tiered_len(endpoints, (n - 1) as nat);
    }
}

impl TieredPoolBuilder {
    /// Create a new builder: no endpoints, health check every 60 s, three
    /// consecutive errors, retry delay 5 s, fallback for critical requests
    /// on, escalation for low priority requests off.
    pub fn new() -> (r: Self)
        ensures
            r@.endpoints.len() == 0,
            duration_secs(r@.health_check_interval) == 60,
            r@.max_consecutive_errors == 3,
            duration_secs(r@.retry_delay) == 5,
            r@.allow_critical_fallback,
            !r@.allow_low_escalation,
    {
        TieredPoolBuilder {
            endpoints: Vec::new(),
            health_check_interval: Duration::from_secs(60),
            max_consecutive_errors: 3,
            retry_delay: Duration::from_secs(5),
            allow_critical_fallback: true,
            allow_low_escalation: false,
        }
    }

    /// Add an endpoint of a tier with the priority that is usual for it.
    fn add_plain(self, url: &str, name: &str, tier: EndpointTier, priority: u32) -> (r: Self)
        ensures
            r@.endpoints.len() == self@.endpoints.len() + 1,
            r@.endpoints.drop_last() == self@.endpoints,
            is_plain_entry(r@.endpoints.last(), url@, name@, tier, priority),
            r@ == (BuilderView { endpoints: r@.endpoints, ..self@ }),
    {
        let mut r = self;
        let entry = TieredEndpoint::new(url, tier).with_name(name).with_priority(priority);
        r.endpoints.push(entry);
        assert(r@.endpoints.drop_last() =~= self@.endpoints);
        r
    }

    /// Add a premium endpoint, with priority 10.
    pub fn add_premium(self, url: &str, name: &str) -> (r: Self)
        ensures
            r@.endpoints.len() == self@.endpoints.len() + 1,
            r@.endpoints.drop_last() == self@.endpoints,
            is_plain_entry(r@.endpoints.last(), url@, name@, EndpointTier::Premium, 10),
            r@ == (BuilderView { endpoints: r@.endpoints, ..self@ }),
    {
        self.add_plain(url, name, EndpointTier::Premium, 10)
    }

    /// Add a standard endpoint, with priority 50.
    pub fn add_standard(self, url: &str, name: &str) -> (r: Self)
        ensures
            r@.endpoints.len() == self@.endpoints.len() + 1,
            r@.endpoints.drop_last() == self@.endpoints,
            is_plain_entry(r@.endpoints.last(), url@, name@, EndpointTier::Standard, 50),
            r@ == (BuilderView { endpoints: r@.endpoints, ..self@ }),
    {
        self.add_plain(url, name, EndpointTier::Standard, 50)
    }

    /// Add a free endpoint, with priority 100.
    pub fn add_free(self, url: &str, name: &str) -> (r: Self)
        ensures
            r@.endpoints.len() == self@.endpoints.len() + 1,
            r@.endpoints.drop_last() == self@.endpoints,
            is_plain_entry(r@.endpoints.last(), url@, name@, EndpointTier::Free, 100),
            r@ == (BuilderView { endpoints: r@.endpoints, ..self@ }),
    {
        self.add_plain(url, name, EndpointTier::Free, 100)
    }

    /// Add a custom tiered endpoint.
    pub fn add_endpoint(self, endpoint: TieredEndpoint) -> (r: Self)
        ensures
            r@ == (BuilderView { endpoints: self@.endpoints.push(endpoint), ..self@ }),
    {
        let mut r = self;
        r.endpoints.push(endpoint);
        r
    }

    /// Add endpoints to the free tier. The priority of each is adjusted by
    /// the grade of its capabilities: better endpoints move forward, worse
    /// ones back, and one of which nothing is known stays where it is.
    pub fn add_free_endpoints(self, endpoints: Vec<RpcEndpoint>) -> (r: Self)
        ensures
            r@ == (BuilderView {
                endpoints: with_free_endpoints(self@.endpoints, endpoints@, endpoints@.len()),
                ..self@
            }),
    {
        let mut r = self;
        let mut i: usize = 0;
        while i < endpoints.len()
            invariant
                i <= endpoints@.len(),
                r@ == (BuilderView {
                    endpoints: with_free_endpoints(self@.endpoints, endpoints@, i as nat),
                    ..self@
                }),
            decreases endpoints@.len() - i,
        {
            let e = endpoints[i].duplicate();
            let adjustment = e.capabilities.priority_adjustment();
            let priority = adjust_priority(e.priority, adjustment);
            r.endpoints.push(
                TieredEndpoint {
                    endpoint: e.with_priority(priority),
                    tier: EndpointTier::Free,
                    rate_limit: 0,
                },
            );
            i = i + 1;
        }
        r
    }

    /// Add the built-in public endpoints of a chain to the free tier, as
    /// `add_free_endpoints` does. A chain without presets adds nothing.
    pub fn with_default_free_endpoints(self, chain_id: u64) -> (r: Self)
        ensures
            exists|list: Seq<RpcEndpoint>|
                {
                    &&& is_default_list(list, chain_id)
                    &&& r@ == (BuilderView {
                        endpoints: #[trigger] with_free_endpoints(
                            self@.endpoints,
                            list,
                            list.len(),
                        ),
                        ..self@
                    })
                },
    {
        let endpoints = default_endpoints(chain_id);
        self.add_free_endpoints(endpoints)
    }

    /// Add the built-in public endpoints of several chains to the free tier:
    /// for each chain in turn, what `with_default_free_endpoints` adds for
    /// it. What was there before stays in front.
    pub fn with_default_free_endpoints_for_chains(self, chain_ids: &[u64]) -> (r: Self)
        ensures
            exists|lists: Seq<Seq<RpcEndpoint>>|
                {
                    &&& are_default_lists(lists, chain_ids@)
                    &&& r@ == (BuilderView {
                        endpoints: #[trigger] with_free_lists(
                            self@.endpoints,
                            lists,
                            lists.len(),
                        ),
                        ..self@
                    })
                },
            self@.endpoints.is_prefix_of(r@.endpoints),
            forall|i: int|
                self@.endpoints.len() <= i < r@.endpoints.len() ==> (#[trigger] r@.endpoints[i]).tier
                    == EndpointTier::Free,
    {
        let mut r = self;
        let mut k: usize = 0;
        let ghost lists: Seq<Seq<RpcEndpoint>> = Seq::empty();
        while k < chain_ids.len()
            invariant
                k <= chain_ids@.len(),
                lists.len() == k,
                forall|j: int|
                    0 <= j < k ==> is_default_list(#[trigger] lists[j], chain_ids@[j]),
                r@ == (BuilderView {
                    endpoints: with_free_lists(self@.endpoints, lists, k as nat),
                    ..self@
                }),
                self@.endpoints.is_prefix_of(r@.endpoints),
                forall|i: int|
                    self@.endpoints.len() <= i < r@.endpoints.len() ==> (
                    #[trigger] r@.endpoints[i]).tier == EndpointTier::Free,
            decreases chain_ids@.len() - k,
        {
            let ghost before = r@.endpoints;
            let ghost earlier = lists;
            r = r.with_default_free_endpoints(chain_ids[k]);
            proof {
                let list = choose|list: Seq<RpcEndpoint>|
                    is_default_list(list, chain_ids@[k as int]) && r@.endpoints
                        == #[trigger] with_free_endpoints(before, list, list.len());
                lists = earlier.push(list);
                lemma_with_free_lists_agree(self@.endpoints, earlier, lists, k as nat);
                lemma_with_free_endpoints(before, list, list.len());
                assert forall|i: int|
                    self@.endpoints.len() <= i < r@.endpoints.len() implies (
                #[trigger] r@.endpoints[i]).tier == EndpointTier::Free by {
                    if i < before.len() {
                        assert(r@.endpoints[i] == before[i]);
                    } else {
                        assert(r@.endpoints[i] == as_free_endpoint(list[i - before.len()]));
                    }
                }
            }
            k = k + 1;
        }
        r
    }

    /// Set the health check interval.
    pub fn health_check_interval(self, interval: Duration) -> (r: Self)
        ensures
            r@ == (BuilderView { health_check_interval: interval, ..self@ }),
    {
        let mut r = self;
        r.health_check_interval = interval;
        r
    }

    /// Allow critical requests to fall back to lower tiers.
    pub fn allow_critical_fallback(self, allow: bool) -> (r: Self)
        ensures
            r@ == (BuilderView { allow_critical_fallback: allow, ..self@ }),
    {
        let mut r = self;
        r.allow_critical_fallback = allow;
        r
    }

    /// Allow low priority requests to move up to higher tiers.
    pub fn allow_low_escalation(self, allow: bool) -> (r: Self)
        ensures
            r@ == (BuilderView { allow_low_escalation: allow, ..self@ }),
    {
        let mut r = self;
        r.allow_low_escalation = allow;
        r
    }

    /// Build the tiered pool. Of endpoints that share a URL only the first
    /// one added is kept, whatever its tier. A builder without endpoints is
    /// refused.
    pub fn build(self) -> (r: Result<TieredPool, RpcPoolError>)
        ensures
            self@.endpoints.len() == 0 <==> r is Err,
            r matches Err(e) ==> e == RpcPoolError::NoEndpointsConfigured,
            r matches Ok(pool) ==> {
                &&& pool.wf()
                &&& pool@.allow_critical_fallback == self@.allow_critical_fallback
                &&& pool@.allow_low_escalation == self@.allow_low_escalation
                &&& pool.spec_free() matches Some(free) ==> free.strategy().used() == Set::<
                    Seq<char>,
                >::empty() && duration_secs(free.strategy().spec_min_interval()) == 1
                &&& forall|tier: EndpointTier| #[trigger]
                    pool@.tier(tier) is None <==> endpoints_of_tier(
                        dedup_tiered(self@.endpoints, self@.endpoints.len()),
                        tier,
                        dedup_tiered(self@.endpoints, self@.endpoints.len()).len(),
                    ).len() == 0
                &&& forall|tier: EndpointTier| #[trigger]
                    pool@.tier(tier) matches Some(v) ==> {
                        &&& v.endpoints == pool_order(
                            endpoints_of_tier(
                                dedup_tiered(self@.endpoints, self@.endpoints.len()),
                                tier,
                                dedup_tiered(self@.endpoints, self@.endpoints.len()).len(),
                            ),
                        )
                        &&& v.max_consecutive_errors == self@.max_consecutive_errors
                        &&& v.retry_delay == self@.retry_delay
                        &&& v.health_check_interval == self@.health_check_interval
                        &&& v.total_requests == 0
                        &&& v.failovers == 0
                        &&& !v.shutdown
                    }
            },
    {
        let mut seen = UrlSet::new();
        let mut unique: Vec<TieredEndpoint> = Vec::new();
        let mut i: usize = 0;
        while i < self.endpoints.len()
            invariant
                i <= self.endpoints@.len(),
                unique@ == dedup_tiered(self.endpoints@, i as nat),
                forall|url: Seq<char>|
                    seen@.contains(url) <==> exists|j: int|
                        0 <= j < i && (#[trigger] self.endpoints@[j]).endpoint.url@ == url,
            decreases self.endpoints@.len() - i,
        {
            let e = &self.endpoints[i];
            let fresh = seen.insert(e.endpoint.url.clone());
            if fresh {
                unique.push(
                    TieredEndpoint {
                        endpoint: e.endpoint.duplicate(),
                        tier: e.tier,
                        rate_limit: e.rate_limit,
                    },
                );
            }
            proof {
                assert(fresh == !tiered_url_seen_before(self.endpoints@, i as int));
                assert forall|url: Seq<char>|
                    seen@.contains(url) <==> exists|j: int|
                        0 <= j < i + 1 && (#[trigger] self.endpoints@[j]).endpoint.url@ == url by {
                    if seen@.contains(url) && url != e.endpoint.url@ {
                        let j = choose|j: int|
                            0 <= j < i && (#[trigger] self.endpoints@[j]).endpoint.url@ == url;
                        assert(0 <= j < i + 1 && self.endpoints@[j].endpoint.url@ == url);
                    }
                    if url == e.endpoint.url@ {
                        assert(self.endpoints@[i as int].endpoint.url@ == url);
                    }
                }
            }
            i = i + 1;
        }
        proof {
            lemma_dedup_tiered_len(self.endpoints@, self.endpoints@.len());
        }
        TieredPool::new(
            TieredPoolConfig {
                endpoints: unique,
                health_check_interval: self.health_check_interval,
                max_consecutive_errors: self.max_consecutive_errors,
                retry_delay: self.retry_delay,
                allow_critical_fallback: self.allow_critical_fallback,
                allow_low_escalation: self.allow_low_escalation,
            },
        )
    }
}

impl Default for TieredPoolBuilder {
    fn default() -> (r: Self)
        ensures
            r@.endpoints.len() == 0,
            duration_secs(r@.health_check_interval) == 60,
            r@.max_consecutive_errors == 3,
            duration_secs(r@.retry_delay) == 5,
            r@.allow_critical_fallback,
            !r@.allow_low_escalation,
    {
        TieredPoolBuilder::new()
    }
}

/// Adding free endpoints keeps what was there and adds free endpoints
/// behind it.
pub proof fn lemma_with_free_endpoints(list: Seq<TieredEndpoint>, added: Seq<RpcEndpoint>, n: nat)
    requires
        n <= added.len(),
    ensures
        with_free_endpoints(list, added, n).len() == list.len() + n,
        list.is_prefix_of(with_free_endpoints(list, added, n)),
        forall|i: int|
            list.len() <= i < list.len() + n ==> (#[trigger] with_free_endpoints(list, added, n)[i])
                == as_free_endpoint(added[i - list.len()]),
    decreases n,
{
    if n > 0 {
        lemma_with_free_endpoints(list, added, (n - 1) as nat);
    }
}

} // verus!
