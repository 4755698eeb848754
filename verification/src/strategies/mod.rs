//! Endpoint selection strategies.
//!
//! A strategy chooses the next endpoint to try from the endpoints of a pool, a
//! snapshot of their statistics and the set of URLs already tried for the
//! current request.
//!
//! - [`FailoverStrategy`]: the first healthy endpoint in priority order.
//! - [`RoundRobinStrategy`]: the healthy endpoints in turn.
//! - [`LatencyBasedStrategy`]: the healthy endpoint with the lowest latency.
//! - [`RateAwareStrategy`]: the healthy endpoint that has been idle longest.

pub mod failover;
pub mod latency_based;
pub mod rate_aware;
pub mod round_robin;

pub use failover::FailoverStrategy;
pub use failover::failover_choice;
pub use latency_based::LatencyBasedStrategy;
pub use latency_based::latency_choice;
pub use latency_based::latency_key;
pub use rate_aware::RateAwareStrategy;
pub use rate_aware::pick_longest_idle;
pub use round_robin::RoundRobinStrategy;
pub use round_robin::round_robin_choice;

use crate::endpoint::EndpointStats;
use crate::endpoint::RpcEndpoint;
use vstd::hash_map::StringHashMap;
use vstd::hash_set::StringHashSet;
use vstd::prelude::*;

verus! {

/// A snapshot of the statistics of a pool, keyed by endpoint URL.
pub type StatsSnapshot = StringHashMap<EndpointStats>;

/// A set of endpoint URLs.
pub type UrlSet = StringHashSet;

/// Whether the statistics let an endpoint pass as healthy. An endpoint
/// without statistics passes.
pub open spec fn counts_as_healthy(stats: Map<Seq<char>, EndpointStats>, url: Seq<char>) -> bool {
    stats.contains_key(url) ==> stats[url].is_healthy
}

/// Whether endpoint `i` may be chosen: it exists, its URL is not excluded and,
/// where `healthy_only` is set, it passes as healthy.
pub open spec fn eligible(
    endpoints: Seq<RpcEndpoint>,
    stats: Map<Seq<char>, EndpointStats>,
    exclude: Set<Seq<char>>,
    healthy_only: bool,
    i: int,
) -> bool {
    &&& 0 <= i < endpoints.len()
    &&& !exclude.contains(endpoints[i].url@)
    &&& healthy_only ==> counts_as_healthy(stats, endpoints[i].url@)
}

/// Whether endpoint `i` may be chosen at all: it exists and is not excluded.
pub open spec fn is_candidate(endpoints: Seq<RpcEndpoint>, exclude: Set<Seq<char>>, i: int) -> bool {
    0 <= i < endpoints.len() && !exclude.contains(endpoints[i].url@)
}

/// The first eligible endpoint at or after position `from`, if there is one.
pub open spec fn first_eligible_from(
    endpoints: Seq<RpcEndpoint>,
    stats: Map<Seq<char>, EndpointStats>,
    exclude: Set<Seq<char>>,
    healthy_only: bool,
    from: int,
) -> Option<int>
    decreases endpoints.len() - from,
{
    if from < 0 || from >= endpoints.len() {
        None
    } else if eligible(endpoints, stats, exclude, healthy_only, from) {
        Some(from)
    } else {
        first_eligible_from(endpoints, stats, exclude, healthy_only, from + 1)
    }
}

/// The last resort of every strategy: the first endpoint that is not
/// excluded, whatever its health.
pub open spec fn fallback_choice(endpoints: Seq<RpcEndpoint>, exclude: Set<Seq<char>>) -> Option<
    int,
> {
    first_eligible_from(endpoints, Map::empty(), exclude, false, 0)
}

/// The eligible endpoints among the first `n`, in their order.
pub open spec fn eligible_indices(
    endpoints: Seq<RpcEndpoint>,
    stats: Map<Seq<char>, EndpointStats>,
    exclude: Set<Seq<char>>,
    healthy_only: bool,
    n: nat,
) -> Seq<int>
    decreases n,
{
    if n == 0 {
        Seq::empty()
    } else {
        let before = eligible_indices(endpoints, stats, exclude, healthy_only, (n - 1) as nat);
        if eligible(endpoints, stats, exclude, healthy_only, n - 1) {
            before.push(n - 1)
        } else {
            before
        }
    }
}

/// The healthy endpoints that are not excluded, in their order.
pub open spec fn healthy_candidates(
    endpoints: Seq<RpcEndpoint>,
    stats: Map<Seq<char>, EndpointStats>,
    exclude: Set<Seq<char>>,
) -> Seq<int> {
    eligible_indices(endpoints, stats, exclude, true, endpoints.len())
}

/// The endpoint that stands at a chosen position.
pub open spec fn chosen<'a>(endpoints: Seq<RpcEndpoint>, choice: Option<int>) -> Option<
    &'a RpcEndpoint,
> {
    match choice {
        Some(i) => Some(&endpoints[i]),
        None => None,
    }
}

/// What every strategy owes its caller: an endpoint of the list that is not
/// excluded, or nothing when every endpoint is excluded.
pub open spec fn valid_selection(
    endpoints: Seq<RpcEndpoint>,
    exclude: Set<Seq<char>>,
    selected: Option<&RpcEndpoint>,
) -> bool {
    match selected {
        Some(e) => exists|i: int| #[trigger] is_candidate(endpoints, exclude, i) && endpoints[i] == *e,
        None => forall|i: int| !#[trigger] is_candidate(endpoints, exclude, i),
    }
}

/// The first eligible endpoint is eligible and nothing before it is; there is
/// none exactly when no endpoint at or after `from` is eligible.
pub proof fn lemma_first_eligible(
    endpoints: Seq<RpcEndpoint>,
    stats: Map<Seq<char>, EndpointStats>,
    exclude: Set<Seq<char>>,
    healthy_only: bool,
    from: int,
)
    requires
        0 <= from,
    ensures
        match first_eligible_from(endpoints, stats, exclude, healthy_only, from) {
            Some(i) => from <= i < endpoints.len() && eligible(
                endpoints,
                stats,
                exclude,
                healthy_only,
                i,
            ) && forall|j: int|
                from <= j < i ==> !#[trigger] eligible(endpoints, stats, exclude, healthy_only, j),
            None => forall|j: int|
                from <= j ==> !#[trigger] eligible(endpoints, stats, exclude, healthy_only, j),
        },
    decreases endpoints.len() - from,
{
    if from < endpoints.len() && !eligible(endpoints, stats, exclude, healthy_only, from) {
        lemma_first_eligible(endpoints, stats, exclude, healthy_only, from + 1);
    }
}

/// The list of eligible endpoints holds exactly the eligible positions below
/// `n`, in ascending order.
pub proof fn lemma_eligible_indices(
    endpoints: Seq<RpcEndpoint>,
    stats: Map<Seq<char>, EndpointStats>,
    exclude: Set<Seq<char>>,
    healthy_only: bool,
    n: nat,
)
    requires
        n <= endpoints.len(),
    ensures
        eligible_indices(endpoints, stats, exclude, healthy_only, n).len() <= n,
        forall|k: int|
            0 <= k < eligible_indices(endpoints, stats, exclude, healthy_only, n).len() ==> 0 <= (
            #[trigger] eligible_indices(endpoints, stats, exclude, healthy_only, n)[k]) < n
                && eligible(
                endpoints,
                stats,
                exclude,
                healthy_only,
                eligible_indices(endpoints, stats, exclude, healthy_only, n)[k],
            ),
        forall|k1: int, k2: int|
            0 <= k1 < k2 < eligible_indices(endpoints, stats, exclude, healthy_only, n).len()
                ==> eligible_indices(endpoints, stats, exclude, healthy_only, n)[k1]
                < eligible_indices(endpoints, stats, exclude, healthy_only, n)[k2],
        forall|j: int|
            0 <= j < n && #[trigger] eligible(endpoints, stats, exclude, healthy_only, j)
                ==> eligible_indices(endpoints, stats, exclude, healthy_only, n).contains(j),
    decreases n,
{
    if n > 0 {
        let before = eligible_indices(endpoints, stats, exclude, healthy_only, (n - 1) as nat);
        let all = eligible_indices(endpoints, stats, exclude, healthy_only, n);
        lemma_eligible_indices(endpoints, stats, exclude, healthy_only, (n - 1) as nat);
        assert forall|j: int|
            0 <= j < n && #[trigger] eligible(
                endpoints,
                stats,
                exclude,
                healthy_only,
                j,
            ) implies all.contains(j) by {
            if j < n - 1 {
                assert(before.contains(j));
                let k = choose|k: int| 0 <= k < before.len() && before[k] == j;
                assert(all[k] == j);
            } else {
                assert(all[all.len() - 1] == j);
            }
        }
    }
}

/// Whether a choice is one that a strategy may make: the position of an
/// endpoint that is not excluded, or none where every endpoint is excluded.
pub open spec fn valid_choice(
    endpoints: Seq<RpcEndpoint>,
    exclude: Set<Seq<char>>,
    choice: Option<int>,
) -> bool {
    match choice {
        Some(i) => is_candidate(endpoints, exclude, i),
        None => forall|i: int| !#[trigger] is_candidate(endpoints, exclude, i),
    }
}

/// Every choice that names a candidate, and the empty choice where there is
/// no candidate, is a valid selection.
pub proof fn lemma_choice_is_valid(
    endpoints: Seq<RpcEndpoint>,
    exclude: Set<Seq<char>>,
    choice: Option<int>,
)
    requires
        valid_choice(endpoints, exclude, choice),
    ensures
        valid_selection(endpoints, exclude, chosen(endpoints, choice)),
{
}

/// The fallback names the first candidate, and names none only where there
/// is none.
pub proof fn lemma_fallback_choice(endpoints: Seq<RpcEndpoint>, exclude: Set<Seq<char>>)
    ensures
        match fallback_choice(endpoints, exclude) {
            Some(i) => is_candidate(endpoints, exclude, i) && forall|j: int|
                0 <= j < i ==> !#[trigger] is_candidate(endpoints, exclude, j),
            None => forall|j: int| !#[trigger] is_candidate(endpoints, exclude, j),
        },
{
    lemma_first_eligible(endpoints, Map::empty(), exclude, false, 0);
    assert forall|j: int| #[trigger]
        is_candidate(endpoints, exclude, j) == eligible(
            endpoints,
            Map::empty(),
            exclude,
            false,
            j,
        ) by {}
}

/// A strategy for selecting endpoints.
pub trait SelectionStrategy: Send + Sync {
    /// Whether the strategy, as it stands, may choose the endpoint at the
    /// position `choice` (or none, for `None`) from these endpoints, given
    /// these statistics and these excluded URLs.
    spec fn may_select(
        &self,
        endpoints: Seq<RpcEndpoint>,
        stats: Map<Seq<char>, EndpointStats>,
        exclude: Set<Seq<char>>,
        choice: Option<int>,
    ) -> bool;

    /// Select the next endpoint to use.
    ///
    /// * `endpoints` - all configured endpoints, sorted by priority.
    /// * `stats` - current statistics of each endpoint.
    /// * `exclude` - URLs already tried for the current request.
    ///
    /// Returns an endpoint that is not excluded. Nothing is returned only when
    /// every endpoint is excluded: an unhealthy endpoint is still offered when
    /// no healthy one is left.
    fn select<'a>(
        &mut self,
        endpoints: &'a [RpcEndpoint],
        stats: &StatsSnapshot,
        exclude: &UrlSet,
    ) -> (selected: Option<&'a RpcEndpoint>)
        ensures
            valid_selection(endpoints@, exclude@, selected),
            exists|choice: Option<int>|
                {
                    &&& #[trigger] old(self).may_select(endpoints@, stats@, exclude@, choice)
                    &&& valid_choice(endpoints@, exclude@, choice)
                    &&& selected == chosen(endpoints@, choice)
                },
    ;

    /// The short name of this strategy.
    spec fn spec_name(&self) -> Seq<char>;

    /// Name of this strategy for logs and metrics.
    fn name(&self) -> (name: &'static str)
        ensures
            name@ == self.spec_name(),
    ;
}

/// A boxed strategy selects as the strategy in the box does.
impl<S: SelectionStrategy + ?Sized> SelectionStrategy for Box<S> {
    open spec fn spec_name(&self) -> Seq<char> {
        (**self).spec_name()
    }

    open spec fn may_select(
        &self,
        endpoints: Seq<RpcEndpoint>,
        stats: Map<Seq<char>, EndpointStats>,
        exclude: Set<Seq<char>>,
        choice: Option<int>,
    ) -> bool {
        (**self).may_select(endpoints, stats, exclude, choice)
    }

    fn select<'a>(
        &mut self,
        endpoints: &'a [RpcEndpoint],
        stats: &StatsSnapshot,
        exclude: &UrlSet,
    ) -> (selected: Option<&'a RpcEndpoint>) {
        let selected = (**self).select(endpoints, stats, exclude);
        proof {
            let choice = choose|choice: Option<int>|
                {
                    &&& #[trigger] (**old(self)).may_select(endpoints@, stats@, exclude@, choice)
                    &&& valid_choice(endpoints@, exclude@, choice)
                    &&& selected == chosen(endpoints@, choice)
                };
            assert(old(self).may_select(endpoints@, stats@, exclude@, choice));
        }
        selected
    }

    fn name(&self) -> (name: &'static str)
        ensures
            name@ == (**self).spec_name(),
    {
        (**self).name()
    }
}

/// Whether the statistics let the endpoint with this URL pass as healthy.
pub fn passes_as_healthy(stats: &StatsSnapshot, url: &str) -> (r: bool)
    ensures
        r == counts_as_healthy(stats@, url@),
{
    match stats.get(url) {
        Some(s) => s.is_healthy,
        None => true,
    }
}

/// Whether endpoint `i` may be chosen.
pub fn is_eligible(
    endpoints: &[RpcEndpoint],
    stats: &StatsSnapshot,
    exclude: &UrlSet,
    healthy_only: bool,
    i: usize,
) -> (r: bool)
    requires
        i < endpoints@.len(),
    ensures
        r == eligible(endpoints@, stats@, exclude@, healthy_only, i as int),
{
    let url = endpoints[i].url.as_str();
    !exclude.contains(url) && (!healthy_only || passes_as_healthy(stats, url))
}

/// Position of the first eligible endpoint.
pub fn find_first_eligible(
    endpoints: &[RpcEndpoint],
    stats: &StatsSnapshot,
    exclude: &UrlSet,
    healthy_only: bool,
) -> (r: Option<usize>)
    ensures
        match r {
            Some(i) => first_eligible_from(endpoints@, stats@, exclude@, healthy_only, 0) == Some(
                i as int,
            ),
            None => first_eligible_from(endpoints@, stats@, exclude@, healthy_only, 0) is None,
        },
{
    let mut i: usize = 0;
    while i < endpoints.len()
        invariant
            i <= endpoints@.len(),
            first_eligible_from(endpoints@, stats@, exclude@, healthy_only, 0)
                == first_eligible_from(endpoints@, stats@, exclude@, healthy_only, i as int),
        decreases endpoints@.len() - i,
    {
        if is_eligible(endpoints, stats, exclude, healthy_only, i) {
            return Some(i);
        }
        i = i + 1;
    }
    None
}

/// The last resort of every strategy: the first endpoint that is not
/// excluded, whatever its health.
pub fn select_fallback<'a>(endpoints: &'a [RpcEndpoint], exclude: &UrlSet) -> (selected: Option<
    &'a RpcEndpoint,
>)
    ensures
        selected == chosen(endpoints@, fallback_choice(endpoints@, exclude@)),
        valid_selection(endpoints@, exclude@, selected),
{
    let empty = StatsSnapshot::new();
    let found = find_first_eligible(endpoints, &empty, exclude, false);
    proof {
        lemma_fallback_choice(endpoints@, exclude@);
        lemma_choice_is_valid(endpoints@, exclude@, fallback_choice(endpoints@, exclude@));
    }
    match found {
        Some(i) => Some(&endpoints[i]),
        None => None,
    }
}

/// Positions of the healthy endpoints that are not excluded, in their order.
pub fn collect_healthy(endpoints: &[RpcEndpoint], stats: &StatsSnapshot, exclude: &UrlSet) -> (v:
    Vec<usize>)
    ensures
        v@.len() == healthy_candidates(endpoints@, stats@, exclude@).len(),
        forall|k: int|
            0 <= k < v@.len() ==> #[trigger] v@[k] as int == healthy_candidates(
                endpoints@,
                stats@,
                exclude@,
            )[k],
        forall|k: int| 0 <= k < v@.len() ==> #[trigger] v@[k] < endpoints@.len(),
{
    let mut v: Vec<usize> = Vec::new();
    let mut i: usize = 0;
    while i < endpoints.len()
        invariant
            i <= endpoints@.len(),
            v@.len() == eligible_indices(endpoints@, stats@, exclude@, true, i as nat).len(),
            forall|k: int|
                0 <= k < v@.len() ==> #[trigger] v@[k] as int == eligible_indices(
                    endpoints@,
                    stats@,
                    exclude@,
                    true,
                    i as nat,
                )[k],
            forall|k: int| 0 <= k < v@.len() ==> #[trigger] v@[k] < i,
        decreases endpoints@.len() - i,
    {
        if is_eligible(endpoints, stats, exclude, true, i) {
            v.push(i);
        }
        i = i + 1;
    }
    v
}

} // verus!
