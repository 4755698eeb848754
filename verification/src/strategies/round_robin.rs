//! Round-robin strategy: the healthy endpoints in turn.

use crate::endpoint::EndpointStats;
use crate::endpoint::RpcEndpoint;
use crate::strategies::chosen;
use crate::strategies::collect_healthy;
use crate::strategies::fallback_choice;
use crate::strategies::healthy_candidates;
use crate::strategies::lemma_choice_is_valid;
use crate::strategies::lemma_eligible_indices;
use crate::strategies::lemma_fallback_choice;
use crate::strategies::select_fallback;
use crate::strategies::SelectionStrategy;
use crate::strategies::StatsSnapshot;
use crate::strategies::UrlSet;
use vstd::prelude::*;

verus! {

/// Round-robin selection strategy.
///
/// Cycles through the healthy endpoints that are not excluded, one step per
/// selection.
#[derive(Debug, Default)]
pub struct RoundRobinStrategy {
    /// Number of selections made among healthy endpoints so far.
    pub current_index: usize,
}

/// The position that the round-robin strategy chooses when its counter
/// stands at `counter`.
pub open spec fn round_robin_choice(
    endpoints: Seq<RpcEndpoint>,
    stats: Map<Seq<char>, EndpointStats>,
    exclude: Set<Seq<char>>,
    counter: int,
) -> Option<int> {
    let healthy = healthy_candidates(endpoints, stats, exclude);
    if healthy.len() == 0 {
        fallback_choice(endpoints, exclude)
    } else {
        Some(healthy[counter % (healthy.len() as int)])
    }
}

/// The counter after a selection: one more, starting over after the largest
/// value, when a healthy endpoint was there to choose.
pub open spec fn round_robin_next(
    endpoints: Seq<RpcEndpoint>,
    stats: Map<Seq<char>, EndpointStats>,
    exclude: Set<Seq<char>>,
    counter: usize,
) -> usize {
    if healthy_candidates(endpoints, stats, exclude).len() == 0 {
        counter
    } else if counter == usize::MAX {
        0
    } else {
        (counter + 1) as usize
    }
}

impl RoundRobinStrategy {
    /// Create a new round-robin strategy, starting at the first healthy
    /// endpoint.
    pub fn new() -> (r: Self)
        ensures
            r.current_index == 0,
    {
        RoundRobinStrategy { current_index: 0 }
    }
}

impl SelectionStrategy for RoundRobinStrategy {
    open spec fn spec_name(&self) -> Seq<char> {
        "round-robin"@
    }

    open spec fn may_select(
        &self,
        endpoints: Seq<RpcEndpoint>,
        stats: Map<Seq<char>, EndpointStats>,
        exclude: Set<Seq<char>>,
        choice: Option<int>,
    ) -> bool {
        choice == round_robin_choice(endpoints, stats, exclude, self.current_index as int)
    }

    fn select<'a>(
        &mut self,
        endpoints: &'a [RpcEndpoint],
        stats: &StatsSnapshot,
        exclude: &UrlSet,
    ) -> (selected: Option<&'a RpcEndpoint>)
        ensures
            selected == chosen(endpoints@,
                round_robin_choice(
                    endpoints@,
                    stats@,
                    exclude@,
                    old(self).current_index as int,
                ),
            ),
            final(self).current_index == round_robin_next(
                endpoints@,
                stats@,
                exclude@,
                old(self).current_index,
            ),
    {
        let healthy = collect_healthy(endpoints, stats, exclude);
        proof {
            lemma_eligible_indices(endpoints@, stats@, exclude@, true, endpoints@.len());
            lemma_fallback_choice(endpoints@, exclude@);
            assert(self.may_select(
                endpoints@,
                stats@,
                exclude@,
                round_robin_choice(endpoints@, stats@, exclude@, self.current_index as int),
            ));
        }
        if healthy.len() == 0 {
            return select_fallback(endpoints, exclude);
        }
        let idx = self.current_index % healthy.len();
        self.current_index = if self.current_index == usize::MAX {
            0
        } else {
            self.current_index + 1
        };
        let pos = healthy[idx];
        proof {
            let choice = round_robin_choice(
                endpoints@,
                stats@,
                exclude@,
                old(self).current_index as int,
            );
            assert(choice == Some(pos as int));
            lemma_choice_is_valid(endpoints@, exclude@, choice);
        }
        Some(&endpoints[pos])
    }

    fn name(&self) -> (r: &'static str)
        ensures
            r@ == "round-robin"@,
    {
        "round-robin"
    }
}

} // verus!
