//! Latency-based strategy: the healthy endpoint with the lowest latency.

use crate::endpoint::EndpointStats;
use crate::endpoint::RpcEndpoint;
use crate::strategies::chosen;
use crate::strategies::collect_healthy;
use crate::strategies::fallback_choice;
use crate::strategies::healthy_candidates;
use crate::strategies::lemma_choice_is_valid;
use crate::strategies::lemma_eligible_indices;
use crate::strategies::lemma_fallback_choice;
use crate::strategies::select_fallback;
use crate::strategies::SelectionStrategy;
use crate::strategies::StatsSnapshot;
use crate::strategies::UrlSet;
use vstd::prelude::*;

verus! {

/// Latency-based selection strategy.
///
/// Always selects the healthy endpoint with the lowest average latency; an
/// endpoint without an observation counts as the fastest. Among equals the
/// earlier endpoint wins.
#[derive(Debug, Default, Clone)]
pub struct LatencyBasedStrategy;

/// The value by which endpoints are compared: the latency average of the
/// endpoint in microseconds, and the largest value for an endpoint without
/// statistics.
pub open spec fn latency_key(stats: Map<Seq<char>, EndpointStats>, url: Seq<char>) -> int {
    if stats.contains_key(url) {
        stats[url].avg_latency_micros as int
    } else {
        u128::MAX as int
    }
}

/// The latency key of the `k`-th endpoint of a list of positions.
pub open spec fn latency_at(
    endpoints: Seq<RpcEndpoint>,
    stats: Map<Seq<char>, EndpointStats>,
    positions: Seq<int>,
    k: int,
) -> int {
    latency_key(stats, endpoints[positions[k]].url@)
}

/// Among the first `n` listed endpoints, the first one with the lowest
/// latency key.
pub open spec fn lowest_latency(
    endpoints: Seq<RpcEndpoint>,
    stats: Map<Seq<char>, EndpointStats>,
    positions: Seq<int>,
    n: nat,
) -> int
    decreases n,
{
    if n <= 1 {
        0
    } else {
        let best = lowest_latency(endpoints, stats, positions, (n - 1) as nat);
        if latency_at(endpoints, stats, positions, n - 1) < latency_at(
            endpoints,
            stats,
            positions,
            best,
        ) {
            n - 1
        } else {
            best
        }
    }
}

/// The position that the latency-based strategy chooses.
pub open spec fn latency_choice(
    endpoints: Seq<RpcEndpoint>,
    stats: Map<Seq<char>, EndpointStats>,
    exclude: Set<Seq<char>>,
) -> Option<int> {
    let healthy = healthy_candidates(endpoints, stats, exclude);
    if healthy.len() == 0 {
        fallback_choice(endpoints, exclude)
    } else {
        Some(healthy[lowest_latency(endpoints, stats, healthy, healthy.len())])
    }
}

/// The chosen entry is no slower than any listed endpoint, and strictly
/// faster than every one listed before it.
pub proof fn lowest_latency_is_first_minimum(
    endpoints: Seq<RpcEndpoint>,
    stats: Map<Seq<char>, EndpointStats>,
    positions: Seq<int>,
    n: nat,
)
    requires
        0 < n <= positions.len(),
    ensures
        0 <= lowest_latency(endpoints, stats, positions, n) < n,
        forall|k: int|
            0 <= k < n ==> latency_at(
                endpoints,
                stats,
                positions,
                lowest_latency(endpoints, stats, positions, n),
            ) <= #[trigger] latency_at(endpoints, stats, positions, k),
        forall|k: int|
            0 <= k < lowest_latency(endpoints, stats, positions, n) ==> latency_at(
                endpoints,
                stats,
                positions,
                lowest_latency(endpoints, stats, positions, n),
            ) < #[trigger] latency_at(endpoints, stats, positions, k),
    decreases n,
{
    if n > 1 {
        lowest_latency_is_first_minimum(endpoints, stats, positions, (n - 1) as nat);
    }
}

/// The latency key of the endpoint with this URL.
fn latency_key_of(stats: &StatsSnapshot, url: &str) -> (r: u128)
    ensures
        r == latency_key(stats@, url@),
{
    match stats.get(url) {
        Some(s) => s.avg_latency_micros,
        None => u128::MAX,
    }
}

impl SelectionStrategy for LatencyBasedStrategy {
    open spec fn spec_name(&self) -> Seq<char> {
        "latency-based"@
    }

    open spec fn may_select(
        &self,
        endpoints: Seq<RpcEndpoint>,
        stats: Map<Seq<char>, EndpointStats>,
        exclude: Set<Seq<char>>,
        choice: Option<int>,
    ) -> bool {
        choice == latency_choice(endpoints, stats, exclude)
    }

    fn select<'a>(
        &mut self,
        endpoints: &'a [RpcEndpoint],
        stats: &StatsSnapshot,
        exclude: &UrlSet,
    ) -> (selected: Option<&'a RpcEndpoint>)
        ensures
            selected == chosen(endpoints@, latency_choice(endpoints@, stats@, exclude@)),
    {
        let healthy = collect_healthy(endpoints, stats, exclude);
        let ghost positions = healthy_candidates(endpoints@, stats@, exclude@);
        proof {
            lemma_eligible_indices(endpoints@, stats@, exclude@, true, endpoints@.len());
            lemma_fallback_choice(endpoints@, exclude@);
            assert(self.may_select(
                endpoints@,
                stats@,
                exclude@,
                latency_choice(endpoints@, stats@, exclude@),
            ));
        }
        if healthy.len() == 0 {
            return select_fallback(endpoints, exclude);
        }
        let mut best: usize = 0;
        let mut best_key: u128 = latency_key_of(stats, endpoints[healthy[0]].url.as_str());
        let mut k: usize = 1;
        while k < healthy.len()
            invariant
                1 <= k <= healthy@.len(),
                healthy@.len() == positions.len(),
                forall|j: int| 0 <= j < healthy@.len() ==> #[trigger] healthy@[j] as int == positions[j],
                forall|j: int| 0 <= j < healthy@.len() ==> #[trigger] healthy@[j] < endpoints@.len(),
                best as int == lowest_latency(endpoints@, stats@, positions, k as nat),
                best < k,
                best_key as int == latency_at(endpoints@, stats@, positions, best as int),
            decreases healthy@.len() - k,
        {
            let key = latency_key_of(stats, endpoints[healthy[k]].url.as_str());
            if key < best_key {
                best = k;
                best_key = key;
            }
            k = k + 1;
        }
        let pos = healthy[best];
        proof {
            let choice = latency_choice(endpoints@, stats@, exclude@);
            assert(choice == Some(pos as int));
            lemma_choice_is_valid(endpoints@, exclude@, choice);
        }
        Some(&endpoints[pos])
    }

    fn name(&self) -> (r: &'static str)
        ensures
            r@ == "latency-based"@,
    {
        "latency-based"
    }
}

} // verus!
