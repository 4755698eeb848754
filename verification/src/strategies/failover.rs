//! Failover strategy: the first healthy endpoint in priority order.

use crate::arrange::sorted_by_priority;
use crate::endpoint::EndpointStats;
use crate::endpoint::RpcEndpoint;
use crate::strategies::chosen;
use crate::strategies::eligible;
use crate::strategies::fallback_choice;
use crate::strategies::find_first_eligible;
use crate::strategies::first_eligible_from;
use crate::strategies::is_candidate;
use crate::strategies::lemma_choice_is_valid;
use crate::strategies::lemma_fallback_choice;
use crate::strategies::lemma_first_eligible;
use crate::strategies::select_fallback;
use crate::strategies::SelectionStrategy;
use crate::strategies::StatsSnapshot;
use crate::strategies::UrlSet;
use vstd::prelude::*;

verus! {

/// Failover selection strategy.
///
/// Always selects the first healthy endpoint that is not excluded; with the
/// endpoints sorted by priority that is the healthy endpoint of the smallest
/// priority value, the earlier one among equals. Falls back to the first
/// endpoint that is not excluded when none is healthy.
#[derive(Debug, Default, Clone)]
pub struct FailoverStrategy;

/// The position that the failover strategy chooses.
pub open spec fn failover_choice(
    endpoints: Seq<RpcEndpoint>,
    stats: Map<Seq<char>, EndpointStats>,
    exclude: Set<Seq<char>>,
) -> Option<int> {
    match first_eligible_from(endpoints, stats, exclude, true, 0) {
        Some(i) => Some(i),
        None => fallback_choice(endpoints, exclude),
    }
}

/// Where a healthy endpoint is left, the failover choice is the first
/// healthy one that is not excluded; otherwise it is the first one that is
/// not excluded; it is empty only where every endpoint is excluded.
pub proof fn failover_prefers_first_healthy(
    endpoints: Seq<RpcEndpoint>,
    stats: Map<Seq<char>, EndpointStats>,
    exclude: Set<Seq<char>>,
)
    ensures
        match failover_choice(endpoints, stats, exclude) {
            Some(i) => {
                &&& is_candidate(endpoints, exclude, i)
                &&& eligible(endpoints, stats, exclude, true, i) ==> forall|j: int|
                    0 <= j < i ==> !#[trigger] eligible(endpoints, stats, exclude, true, j)
                &&& !eligible(endpoints, stats, exclude, true, i) ==> {
                    &&& forall|j: int| !#[trigger] eligible(endpoints, stats, exclude, true, j)
                    &&& forall|j: int| 0 <= j < i ==> !#[trigger] is_candidate(endpoints, exclude, j)
                }
            },
            None => forall|j: int| !#[trigger] is_candidate(endpoints, exclude, j),
        },
{
    lemma_first_eligible(endpoints, stats, exclude, true, 0);
    lemma_fallback_choice(endpoints, exclude);
}

/// With the endpoints sorted by priority and a healthy endpoint left, the
/// failover choice is the healthy endpoint of the smallest priority value
/// that is not excluded, and among those of that priority the first.
pub proof fn failover_takes_smallest_priority(
    endpoints: Seq<RpcEndpoint>,
    stats: Map<Seq<char>, EndpointStats>,
    exclude: Set<Seq<char>>,
)
    requires
        sorted_by_priority(endpoints),
        exists|j: int| #[trigger] eligible(endpoints, stats, exclude, true, j),
    ensures
        failover_choice(endpoints, stats, exclude) is Some,
        eligible(endpoints, stats, exclude, true, failover_choice(endpoints, stats, exclude)->0),
        forall|j: int| #[trigger]
            eligible(endpoints, stats, exclude, true, j) ==> {
                &&& failover_choice(endpoints, stats, exclude)->0 <= j
                &&& endpoints[failover_choice(endpoints, stats, exclude)->0].priority
                    <= endpoints[j].priority
            },
{
    lemma_first_eligible(endpoints, stats, exclude, true, 0);
}

impl SelectionStrategy for FailoverStrategy {
    open spec fn spec_name(&self) -> Seq<char> {
        "failover"@
    }

    open spec fn may_select(
        &self,
        endpoints: Seq<RpcEndpoint>,
        stats: Map<Seq<char>, EndpointStats>,
        exclude: Set<Seq<char>>,
        choice: Option<int>,
    ) -> bool {
        choice == failover_choice(endpoints, stats, exclude)
    }

    fn select<'a>(
        &mut self,
        endpoints: &'a [RpcEndpoint],
        stats: &StatsSnapshot,
        exclude: &UrlSet,
    ) -> (selected: Option<&'a RpcEndpoint>)
        ensures
            selected == chosen(endpoints@, failover_choice(endpoints@, stats@, exclude@)),
    {
        proof {
            failover_prefers_first_healthy(endpoints@, stats@, exclude@);
            lemma_choice_is_valid(endpoints@, exclude@, failover_choice(endpoints@, stats@, exclude@));
            assert(self.may_select(
                endpoints@,
                stats@,
                exclude@,
                failover_choice(endpoints@, stats@, exclude@),
            ));
        }
        match find_first_eligible(endpoints, stats, exclude, true) {
            Some(i) => Some(&endpoints[i]),
            None => select_fallback(endpoints, exclude),
        }
    }

    fn name(&self) -> (r: &'static str)
        ensures
            r@ == "failover"@,
    {
        "failover"
    }
}

} // verus!
