//! Rate-aware strategy: the healthy endpoint that has been idle longest.
//!
//! The strategy remembers when each endpoint was last selected and prefers
//! the one whose last selection lies furthest back, which spreads the load
//! over all endpoints.

use crate::endpoint::EndpointStats;
use crate::endpoint::RpcEndpoint;
use crate::strategies::chosen;
use crate::strategies::collect_healthy;
use crate::strategies::fallback_choice;
use crate::strategies::healthy_candidates;
use crate::strategies::is_candidate;
use crate::strategies::lemma_eligible_indices;
use crate::strategies::lemma_fallback_choice;
use crate::strategies::select_fallback;
use crate::strategies::SelectionStrategy;
use crate::strategies::StatsSnapshot;
use crate::strategies::UrlSet;
use crate::time::clock_now;
use crate::time::duration_nanos;
use crate::time::duration_secs;
use std::time::Duration;
use std::time::Instant;
use vstd::hash_map::StringHashMap;
use vstd::prelude::*;
use vstd::string::*;

verus! {

/// Rate-aware selection strategy.
///
/// Tracks the time of the last selection per endpoint and selects the healthy
/// endpoint that has been idle longest; an endpoint that was never selected
/// counts as idle for ever.
pub struct RateAwareStrategy {
    /// Time of the last selection of each endpoint URL.
    last_request: StringHashMap<Instant>,
    /// Minimum interval between requests to the same endpoint.
    min_interval: Duration,
}

/// How an idle time ranks: a known idle time by its length, "never used"
/// above every length.
pub open spec fn idle_rank(idle: Option<u128>) -> int {
    match idle {
        Some(t) => t as int,
        None => u128::MAX + 1,
    }
}

/// Among the first `n` idle times, the position of the first longest one.
pub open spec fn longest_idle(idles: Seq<Option<u128>>, n: nat) -> int
    decreases n,
{
    if n <= 1 {
        0
    } else {
        let best = longest_idle(idles, (n - 1) as nat);
        if idle_rank(idles[n - 1]) > idle_rank(idles[best]) {
            n - 1
        } else {
            best
        }
    }
}

/// The chosen idle time is no shorter than any other, and strictly longer
/// than every one before it.
pub proof fn longest_idle_is_first_maximum(idles: Seq<Option<u128>>, n: nat)
    requires
        0 < n <= idles.len(),
    ensures
        0 <= longest_idle(idles, n) < n,
        forall|k: int|
            0 <= k < n ==> idle_rank(idles[longest_idle(idles, n)]) >= idle_rank(#[trigger] idles[k]),
        forall|k: int|
            0 <= k < longest_idle(idles, n) ==> idle_rank(idles[longest_idle(idles, n)])
                > idle_rank(#[trigger] idles[k]),
    decreases n,
{
    if n > 1 {
        longest_idle_is_first_maximum(idles, (n - 1) as nat);
    }
}

/// Position of the first longest idle time; `None` stands for "never used"
/// and is longer than every known idle time.
pub fn pick_longest_idle(idles: &Vec<Option<u128>>) -> (best: usize)
    requires
        idles@.len() > 0,
    ensures
        best as int == longest_idle(idles@, idles@.len()),
        best < idles@.len(),
{
    let mut best: usize = 0;
    let mut k: usize = 1;
    while k < idles.len()
        invariant
            1 <= k <= idles@.len(),
            best < k,
            best as int == longest_idle(idles@, k as nat),
        decreases idles@.len() - k,
    {
        let longer = match (&idles[k], &idles[best]) {
            (None, Some(_)) => true,
            (Some(a), Some(b)) => *a > *b,
            _ => false,
        };
        if longer {
            best = k;
        }
        k = k + 1;
    }
    best
}

/// Whether an endpoint has rested for the minimum interval once `elapsed`
/// has passed since it was last used.
pub open spec fn rested_after(elapsed: Duration, min_interval: Duration) -> bool {
    duration_nanos(elapsed) >= duration_nanos(min_interval)
}

/// Whether an endpoint that has been idle for `idle` nanoseconds (`None`:
/// never used) has rested for the minimum interval.
pub fn interval_passed(idle: Option<u128>, min_interval: Duration) -> (passed: bool)
    ensures
        passed == match idle {
            Some(nanos) => nanos >= duration_nanos(min_interval),
            None => true,
        },
{
    match idle {
        Some(nanos) => nanos >= min_interval.as_nanos(),
        None => true,
    }
}

impl RateAwareStrategy {
    /// The URLs that have been selected at least once.
    pub closed spec fn used(self) -> Set<Seq<char>> {
        self.last_request@.dom()
    }

    /// The minimum interval between requests to the same endpoint.
    pub closed spec fn spec_min_interval(self) -> Duration {
        self.min_interval
    }

    /// Whether the idle times stand for the listed endpoints: "never used"
    /// exactly for the URLs that were never selected.
    pub open spec fn idles_match(
        self,
        endpoints: Seq<RpcEndpoint>,
        positions: Seq<int>,
        idles: Seq<Option<u128>>,
    ) -> bool {
        &&& idles.len() == positions.len()
        &&& forall|k: int|
            0 <= k < idles.len() ==> ((#[trigger] idles[k]) is None <==> !self.used().contains(
                endpoints[positions[k]].url@,
            ))
    }

    /// Create a new rate-aware strategy with the default interval of one
    /// second; no endpoint has been used.
    pub fn new() -> (r: Self)
        ensures
            r.used() == Set::<Seq<char>>::empty(),
            duration_secs(r.spec_min_interval()) == 1,
    {
        RateAwareStrategy { last_request: StringHashMap::new(), min_interval: Duration::from_secs(1) }
    }

    /// Create a strategy with a custom minimum interval between requests to
    /// the same endpoint; no endpoint has been used.
    pub fn with_min_interval(min_interval: Duration) -> (r: Self)
        ensures
            r.used() == Set::<Seq<char>>::empty(),
            r.spec_min_interval() == min_interval,
    {
        RateAwareStrategy { last_request: StringHashMap::new(), min_interval }
    }

    /// Record that a request was made to an endpoint just now.
    pub fn record_request(&mut self, url: &str)
        ensures
            final(self).used() == old(self).used().insert(url@),
            final(self).spec_min_interval() == old(self).spec_min_interval(),
    {
        let now = clock_now();
        self.last_request.insert(String::from_str(url), now);
    }

    /// Time since the last request to an endpoint, in nanoseconds; `None` for
    /// an endpoint that was never used.
    pub fn time_since_last(&self, url: &str) -> (idle: Option<u128>)
        ensures
            idle is None <==> !self.used().contains(url@),
            idle matches Some(nanos) ==> exists|elapsed: Duration|
                nanos == #[trigger] duration_nanos(elapsed),
    {
        match self.last_request.get(url) {
            Some(t) => {
                let elapsed = t.elapsed();
                Some(elapsed.as_nanos())
            },
            None => None,
        }
    }

    /// Whether the minimum interval has passed since the last request to an
    /// endpoint: the time that the clock says has elapsed since then is at
    /// least the interval. An endpoint that was never used is ready, and with
    /// an interval of zero every endpoint is.
    pub fn is_ready(&self, url: &str) -> (ready: bool)
        ensures
            !self.used().contains(url@) ==> ready,
            self.used().contains(url@) ==> exists|elapsed: Duration|
                ready == #[trigger] rested_after(elapsed, self.spec_min_interval()),
            duration_nanos(self.spec_min_interval()) == 0 ==> ready,
    {
        let idle = self.time_since_last(url);
        let ready = interval_passed(idle, self.min_interval);
        proof {
            if idle is Some {
                let elapsed = choose|elapsed: Duration|
                    idle->0 == #[trigger] duration_nanos(elapsed);
                assert(ready == rested_after(elapsed, self.spec_min_interval()));
            }
        }
        ready
    }
}

impl Default for RateAwareStrategy {
    fn default() -> (r: Self)
        ensures
            r.used() == Set::<Seq<char>>::empty(),
            duration_secs(r.spec_min_interval()) == 1,
    {
        RateAwareStrategy::new()
    }
}

impl SelectionStrategy for RateAwareStrategy {
    open spec fn spec_name(&self) -> Seq<char> {
        "rate-aware"@
    }

    open spec fn may_select(
        &self,
        endpoints: Seq<RpcEndpoint>,
        stats: Map<Seq<char>, EndpointStats>,
        exclude: Set<Seq<char>>,
        choice: Option<int>,
    ) -> bool {
        let healthy = healthy_candidates(endpoints, stats, exclude);
        if healthy.len() == 0 {
            choice == fallback_choice(endpoints, exclude)
        } else {
            exists|idles: Seq<Option<u128>>| #[trigger]
                self.idles_match(endpoints, healthy, idles) && choice == Some(
                    healthy[longest_idle(idles, idles.len())],
                )
        }
    }

    fn select<'a>(
        &mut self,
        endpoints: &'a [RpcEndpoint],
        stats: &StatsSnapshot,
        exclude: &UrlSet,
    ) -> (selected: Option<&'a RpcEndpoint>)
        ensures
            final(self).spec_min_interval() == old(self).spec_min_interval(),
            healthy_candidates(endpoints@, stats@, exclude@).len() == 0 ==> {
                &&& selected == chosen(endpoints@, fallback_choice(endpoints@, exclude@))
                &&& final(self).used() == old(self).used()
            },
            healthy_candidates(endpoints@, stats@, exclude@).len() > 0 ==> {
                &&& selected is Some
                &&& final(self).used() == old(self).used().insert(selected->0.url@)
            },
    {
        let healthy = collect_healthy(endpoints, stats, exclude);
        let ghost positions = healthy_candidates(endpoints@, stats@, exclude@);
        proof {
            lemma_eligible_indices(endpoints@, stats@, exclude@, true, endpoints@.len());
            lemma_fallback_choice(endpoints@, exclude@);
        }
        if healthy.len() == 0 {
            proof {
                assert(self.may_select(
                    endpoints@,
                    stats@,
                    exclude@,
                    fallback_choice(endpoints@, exclude@),
                ));
            }
            return select_fallback(endpoints, exclude);
        }
        let mut idles: Vec<Option<u128>> = Vec::new();
        let mut k: usize = 0;
        while k < healthy.len()
            invariant
                k <= healthy@.len(),
                idles@.len() == k,
                healthy@.len() == positions.len(),
                forall|j: int| 0 <= j < healthy@.len() ==> #[trigger] healthy@[j] as int == positions[j],
                forall|j: int| 0 <= j < healthy@.len() ==> #[trigger] healthy@[j] < endpoints@.len(),
                forall|j: int|
                    0 <= j < k ==> ((#[trigger] idles@[j]) is None <==> !self.used().contains(
                        endpoints@[positions[j]].url@,
                    )),
            decreases healthy@.len() - k,
        {
            let idle = self.time_since_last(endpoints[healthy[k]].url.as_str());
            idles.push(idle);
            k = k + 1;
        }
        let best = pick_longest_idle(&idles);
        let pos = healthy[best];
        let selected = &endpoints[pos];
        proof {
            assert(old(self).idles_match(endpoints@, positions, idles@));
            assert(is_candidate(endpoints@, exclude@, pos as int));
            assert(endpoints@[pos as int] == *selected);
            assert(old(self).may_select(endpoints@, stats@, exclude@, Some(pos as int)));
            assert(Some(selected) == chosen(endpoints@, Some(pos as int)));
        }
        self.record_request(selected.url.as_str());
        Some(selected)
    }

    fn name(&self) -> (r: &'static str)
        ensures
            r@ == "rate-aware"@,
    {
        "rate-aware"
    }
}

} // verus!
