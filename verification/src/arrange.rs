//! Putting a list of endpoints in the order in which a pool tries them:
//! duplicates by URL removed, the first occurrence kept, then sorted by
//! priority with the input order kept among equal priorities.

use crate::endpoint::RpcEndpoint;
use crate::strategies::UrlSet;
use vstd::prelude::*;

verus! {

/// Whether the URL of endpoint `i` already occurs before position `i`.
pub open spec fn url_seen_before(endpoints: Seq<RpcEndpoint>, i: int) -> bool {
    exists|j: int| 0 <= j < i && (#[trigger] endpoints[j]).url@ == endpoints[i].url@
}

/// Whether some endpoint of the list has this URL.
pub open spec fn has_url(endpoints: Seq<RpcEndpoint>, url: Seq<char>) -> bool {
    exists|j: int| 0 <= j < endpoints.len() && (#[trigger] endpoints[j]).url@ == url
}

/// Whether no two endpoints of the list share a URL.
pub open spec fn distinct_urls(endpoints: Seq<RpcEndpoint>) -> bool {
    forall|i: int, j: int|
        0 <= i < j < endpoints.len() ==> (#[trigger] endpoints[i]).url@ != (
        #[trigger] endpoints[j]).url@
}

/// Whether the priorities of the list never decrease.
pub open spec fn sorted_by_priority(endpoints: Seq<RpcEndpoint>) -> bool {
    forall|i: int, j: int|
        0 <= i <= j < endpoints.len() ==> (#[trigger] endpoints[i]).priority <= (
        #[trigger] endpoints[j]).priority
}

/// The first `n` endpoints without those whose URL occurred before.
pub open spec fn dedup_by_url(endpoints: Seq<RpcEndpoint>, n: nat) -> Seq<RpcEndpoint>
    decreases n,
{
    if n == 0 {
        Seq::empty()
    } else {
        let before = dedup_by_url(endpoints, (n - 1) as nat);
        if url_seen_before(endpoints, n - 1) {
            before
        } else {
            before.push(endpoints[n - 1])
        }
    }
}

/// Where a new endpoint enters a list: behind the last endpoint whose
/// priority value is not larger than its own.
pub open spec fn insert_position(list: Seq<RpcEndpoint>, priority: u32) -> int
    decreases list.len(),
{
    if list.len() == 0 {
        0
    } else if list.last().priority <= priority {
        list.len() as int
    } else {
        insert_position(list.drop_last(), priority)
    }
}

/// The first `n` endpoints sorted by priority; endpoints of equal priority
/// keep their order.
pub open spec fn sort_by_priority(endpoints: Seq<RpcEndpoint>, n: nat) -> Seq<RpcEndpoint>
    decreases n,
{
    if n == 0 {
        Seq::empty()
    } else {
        let before = sort_by_priority(endpoints, (n - 1) as nat);
        before.insert(insert_position(before, endpoints[n - 1].priority), endpoints[n - 1])
    }
}

/// The order in which a pool holds the endpoints it was given.
pub open spec fn pool_order(endpoints: Seq<RpcEndpoint>) -> Seq<RpcEndpoint> {
    let unique = dedup_by_url(endpoints, endpoints.len());
    sort_by_priority(unique, unique.len())
}

/// The insert position lies within the list; everything behind it has a
/// larger priority value, and the endpoint just before it has not.
pub proof fn lemma_insert_position(list: Seq<RpcEndpoint>, priority: u32)
    ensures
        0 <= insert_position(list, priority) <= list.len(),
        forall|j: int|
            insert_position(list, priority) <= j < list.len() ==> (#[trigger] list[j]).priority
                > priority,
        insert_position(list, priority) > 0 ==> list[insert_position(list, priority) - 1].priority
            <= priority,
    decreases list.len(),
{
    if list.len() > 0 && list.last().priority > priority {
        let shorter = list.drop_last();
        lemma_insert_position(shorter, priority);
        assert forall|j: int| insert_position(list, priority) <= j < list.len() implies (
        #[trigger] list[j]).priority > priority by {
            if j < shorter.len() {
                assert(list[j] == shorter[j]);
            }
        }
        if insert_position(list, priority) > 0 {
            assert(list[insert_position(list, priority) - 1] == shorter[insert_position(
                shorter,
                priority,
            ) - 1]);
        }
    }
}

/// Removing duplicates keeps exactly the URLs of the input, each once, and
/// every endpoint kept is the first of the input with its URL.
pub proof fn lemma_dedup_by_url(endpoints: Seq<RpcEndpoint>, n: nat)
    requires
        n <= endpoints.len(),
    ensures
        dedup_by_url(endpoints, n).len() <= n,
        distinct_urls(dedup_by_url(endpoints, n)),
        forall|url: Seq<char>|
            has_url(dedup_by_url(endpoints, n), url) <==> has_url(endpoints.take(n as int), url),
        forall|k: int|
            0 <= k < dedup_by_url(endpoints, n).len() ==> exists|i: int|
                0 <= i < n && endpoints[i] == #[trigger] dedup_by_url(endpoints, n)[k]
                    && !url_seen_before(endpoints, i),
        n > 0 ==> dedup_by_url(endpoints, n).len() > 0,
    decreases n,
{
    let out = dedup_by_url(endpoints, n);
    if n > 0 {
        let m = (n - 1) as nat;
        let before = dedup_by_url(endpoints, m);
        let e = endpoints[n - 1];
        lemma_dedup_by_url(endpoints, m);
        assert forall|url: Seq<char>| has_url(out, url) <==> has_url(
            endpoints.take(n as int),
            url,
        ) by {
            if has_url(out, url) {
                let k = choose|k: int| 0 <= k < out.len() && (#[trigger] out[k]).url@ == url;
                if k < before.len() {
                    assert(before[k].url@ == url);
                    assert(has_url(before, url));
                    let j = choose|j: int|
                        0 <= j < m && (#[trigger] endpoints.take(m as int)[j]).url@ == url;
                    assert(endpoints.take(n as int)[j].url@ == url);
                } else {
                    assert(endpoints.take(n as int)[n - 1].url@ == url);
                }
            }
            if has_url(endpoints.take(n as int), url) {
                let j = choose|j: int|
                    0 <= j < n && (#[trigger] endpoints.take(n as int)[j]).url@ == url;
                if j < m {
                    assert(endpoints.take(m as int)[j].url@ == url);
                    assert(has_url(before, url));
                    let k = choose|k: int| 0 <= k < before.len() && (#[trigger] before[k]).url@ == url;
                    assert(out[k].url@ == url);
                } else if url_seen_before(endpoints, n - 1) {
                    let i = choose|i: int|
                        0 <= i < n - 1 && (#[trigger] endpoints[i]).url@ == endpoints[n - 1].url@;
                    assert(endpoints.take(m as int)[i].url@ == url);
                    assert(has_url(before, url));
                    let k = choose|k: int| 0 <= k < before.len() && (#[trigger] before[k]).url@ == url;
                    assert(out[k].url@ == url);
                } else {
                    assert(out[out.len() - 1].url@ == url);
                }
            }
        }
        if !url_seen_before(endpoints, n - 1) {
            assert forall|i: int, j: int| 0 <= i < j < out.len() implies (#[trigger] out[i]).url@ != (
            #[trigger] out[j]).url@ by {
                if j == out.len() - 1 {
                    if out[i].url@ == e.url@ {
                        assert(before[i].url@ == e.url@);
                        assert(has_url(before, e.url@));
                        let x = choose|x: int|
                            0 <= x < m && (#[trigger] endpoints.take(m as int)[x]).url@ == e.url@;
                        assert(endpoints[x].url@ == endpoints[n - 1].url@);
                        assert(url_seen_before(endpoints, n - 1));
                    }
                } else {
                    assert(before[i].url@ != before[j].url@);
                }
            }
            assert forall|k: int| 0 <= k < out.len() implies exists|i: int|
                0 <= i < n && endpoints[i] == #[trigger] out[k] && !url_seen_before(
                    endpoints,
                    i,
                ) by {
                if k < before.len() {
                    assert(out[k] == before[k]);
                    let i = choose|i: int|
                        0 <= i < m && endpoints[i] == before[k] && !url_seen_before(endpoints, i);
                    assert(0 <= i < n && endpoints[i] == out[k] && !url_seen_before(endpoints, i));
                } else {
                    assert(endpoints[n - 1] == out[k]);
                }
            }
        } else {
            if m == 0 {
                assert(false);
            }
        }
    }
}

/// Inserting an endpoint at its position keeps a sorted list sorted, adds
/// its URL to the URLs of the list and nothing else, and keeps the URLs
/// distinct if the new one was not among them.
pub proof fn lemma_insert_sorted(list: Seq<RpcEndpoint>, e: RpcEndpoint)
    requires
        sorted_by_priority(list),
    ensures
        sorted_by_priority(list.insert(insert_position(list, e.priority), e)),
        forall|url: Seq<char>|
            has_url(list.insert(insert_position(list, e.priority), e), url) <==> (has_url(
                list,
                url,
            ) || url == e.url@),
        distinct_urls(list) && !has_url(list, e.url@) ==> distinct_urls(
            list.insert(insert_position(list, e.priority), e),
        ),
{
    let pos = insert_position(list, e.priority);
    let out = list.insert(pos, e);
    lemma_insert_position(list, e.priority);
    assert forall|i: int, j: int| 0 <= i <= j < out.len() implies (#[trigger] out[i]).priority <= (
    #[trigger] out[j]).priority by {
        let a = if i < pos {
            i
        } else {
            i - 1
        };
        let b = if j < pos {
            j
        } else {
            j - 1
        };
        if i != pos && j != pos {
            assert(out[i] == list[a] && out[j] == list[b]);
        } else if i == pos && j != pos {
            assert(out[j] == list[b]);
        } else if i != pos && j == pos {
            assert(out[i] == list[a]);
            assert(list[a].priority <= list[pos - 1].priority);
        }
    }
    assert forall|url: Seq<char>| has_url(out, url) <==> (has_url(list, url) || url == e.url@) by {
        if has_url(out, url) {
            let k = choose|k: int| 0 <= k < out.len() && (#[trigger] out[k]).url@ == url;
            if k < pos {
                assert(list[k].url@ == url);
            } else if k > pos {
                assert(list[k - 1].url@ == url);
            }
        }
        if has_url(list, url) {
            let k = choose|k: int| 0 <= k < list.len() && (#[trigger] list[k]).url@ == url;
            if k < pos {
                assert(out[k].url@ == url);
            } else {
                assert(out[k + 1].url@ == url);
            }
        }
        if url == e.url@ {
            assert(out[pos].url@ == url);
        }
    }
    if distinct_urls(list) && !has_url(list, e.url@) {
        assert forall|i: int, j: int| 0 <= i < j < out.len() implies (#[trigger] out[i]).url@ != (
        #[trigger] out[j]).url@ by {
            let a = if i < pos {
                i
            } else {
                i - 1
            };
            let b = if j < pos {
                j
            } else {
                j - 1
            };
            if i != pos && j != pos {
                assert(out[i] == list[a] && out[j] == list[b]);
                assert(list[a].url@ != list[b].url@);
            } else if i == pos {
                assert(out[j] == list[b]);
                assert(list[b].url@ != e.url@);
            } else {
                assert(out[i] == list[a]);
                assert(list[a].url@ != e.url@);
            }
        }
    }
}

/// Sorting gives a list whose priorities never decrease, of the length of
/// the input and with exactly its URLs; distinct URLs stay distinct.
pub proof fn lemma_sort_by_priority(endpoints: Seq<RpcEndpoint>, n: nat)
    requires
        n <= endpoints.len(),
    ensures
        sort_by_priority(endpoints, n).len() == n,
        sorted_by_priority(sort_by_priority(endpoints, n)),
        forall|url: Seq<char>|
            has_url(sort_by_priority(endpoints, n), url) <==> has_url(endpoints.take(n as int), url),
        distinct_urls(endpoints) ==> distinct_urls(sort_by_priority(endpoints, n)),
    decreases n,
{
    let out = sort_by_priority(endpoints, n);
    if n > 0 {
        let m = (n - 1) as nat;
        let before = sort_by_priority(endpoints, m);
        let e = endpoints[n - 1];
        lemma_sort_by_priority(endpoints, m);
        lemma_insert_sorted(before, e);
        lemma_insert_position(before, e.priority);
        assert forall|url: Seq<char>| has_url(out, url) <==> has_url(
            endpoints.take(n as int),
            url,
        ) by {
            assert(has_url(out, url) <==> (has_url(before, url) || url == e.url@));
            assert(has_url(before, url) <==> has_url(endpoints.take(m as int), url));
            if has_url(endpoints.take(n as int), url) {
                let j = choose|j: int|
                    0 <= j < n && (#[trigger] endpoints.take(n as int)[j]).url@ == url;
                if j < m {
                    assert(endpoints.take(m as int)[j].url@ == url);
                    assert(has_url(endpoints.take(m as int), url));
                } else {
                    assert(url == e.url@);
                }
            }
            if has_url(endpoints.take(m as int), url) {
                let j = choose|j: int|
                    0 <= j < m && (#[trigger] endpoints.take(m as int)[j]).url@ == url;
                assert(endpoints.take(n as int)[j].url@ == url);
                assert(has_url(endpoints.take(n as int), url));
            }
            if url == e.url@ {
                assert(endpoints.take(n as int)[n - 1].url@ == url);
                assert(has_url(endpoints.take(n as int), url));
            }
        }
        if distinct_urls(endpoints) {
            if has_url(before, e.url@) {
                let j = choose|j: int|
                    0 <= j < m && (#[trigger] endpoints.take(m as int)[j]).url@ == e.url@;
                assert(endpoints[j].url@ == endpoints[n - 1].url@);
                assert(false);
            }
        }
    }
}

/// For each place of the sorted list, the position in the input of the
/// endpoint that stands there.
pub open spec fn sort_sources(endpoints: Seq<RpcEndpoint>, n: nat) -> Seq<int>
    decreases n,
{
    if n == 0 {
        Seq::empty()
    } else {
        let before = sort_by_priority(endpoints, (n - 1) as nat);
        sort_sources(endpoints, (n - 1) as nat).insert(
            insert_position(before, endpoints[n - 1].priority),
            n - 1,
        )
    }
}

/// Sorting is stable: the sorted list holds the endpoints of the input, each
/// once, in ascending priority, and endpoints of equal priority in the order
/// in which the input has them.
pub proof fn lemma_sort_is_stable(endpoints: Seq<RpcEndpoint>, n: nat)
    requires
        n <= endpoints.len(),
    ensures
        sort_by_priority(endpoints, n).len() == n,
        sort_sources(endpoints, n).len() == n,
        forall|k: int|
            0 <= k < n ==> 0 <= #[trigger] sort_sources(endpoints, n)[k] < n && sort_by_priority(
                endpoints,
                n,
            )[k] == endpoints[sort_sources(endpoints, n)[k]],
        forall|k1: int, k2: int|
            0 <= k1 < k2 < n ==> {
                let p1 = endpoints[#[trigger] sort_sources(endpoints, n)[k1]].priority;
                let p2 = endpoints[#[trigger] sort_sources(endpoints, n)[k2]].priority;
                p1 < p2 || (p1 == p2 && sort_sources(endpoints, n)[k1] < sort_sources(
                    endpoints,
                    n,
                )[k2])
            },
    decreases n,
{
    if n > 0 {
        let m = (n - 1) as nat;
        let before = sort_by_priority(endpoints, m);
        let sources_before = sort_sources(endpoints, m);
        let e = endpoints[n - 1];
        let pos = insert_position(before, e.priority);
        let out = sort_by_priority(endpoints, n);
        let sources = sort_sources(endpoints, n);
        lemma_sort_is_stable(endpoints, m);
        lemma_insert_position(before, e.priority);
        assert forall|k: int| 0 <= k < n implies 0 <= #[trigger] sources[k] < n && out[k]
            == endpoints[sources[k]] by {
            if k < pos {
                assert(sources[k] == sources_before[k] && out[k] == before[k]);
            } else if k > pos {
                assert(sources[k] == sources_before[k - 1] && out[k] == before[k - 1]);
            }
        }
        assert forall|k1: int, k2: int| 0 <= k1 < k2 < n implies {
            let p1 = endpoints[#[trigger] sources[k1]].priority;
            let p2 = endpoints[#[trigger] sources[k2]].priority;
            p1 < p2 || (p1 == p2 && sources[k1] < sources[k2])
        } by {
            let a = if k1 < pos {
                k1
            } else {
                k1 - 1
            };
            let b = if k2 < pos {
                k2
            } else {
                k2 - 1
            };
            if k1 != pos && k2 != pos {
                assert(sources[k1] == sources_before[a] && sources[k2] == sources_before[b]);
            } else if k1 == pos {
                assert(sources[k2] == sources_before[b]);
                assert(before[b] == endpoints[sources_before[b]]);
                assert(before[b].priority > e.priority);
            } else {
                assert(sources[k1] == sources_before[a]);
                assert(before[a] == endpoints[sources_before[a]]);
                if a < pos - 1 {
                    let last = endpoints[sources_before[pos - 1]].priority;
                    assert(before[pos - 1] == endpoints[sources_before[pos - 1]]);
                    assert(endpoints[sources_before[a]].priority <= last);
                } else {
                    assert(before[pos - 1] == endpoints[sources_before[pos - 1]]);
                }
            }
        }
    }
}

/// The order of a pool is sorted by priority, holds every URL of the input
/// exactly once, and is empty only for an empty input.
pub proof fn lemma_pool_order(endpoints: Seq<RpcEndpoint>)
    ensures
        sorted_by_priority(pool_order(endpoints)),
        distinct_urls(pool_order(endpoints)),
        forall|url: Seq<char>| has_url(pool_order(endpoints), url) <==> has_url(endpoints, url),
        pool_order(endpoints).len() <= endpoints.len(),
        endpoints.len() > 0 ==> pool_order(endpoints).len() > 0,
{
    let unique = dedup_by_url(endpoints, endpoints.len());
    lemma_dedup_by_url(endpoints, endpoints.len());
    lemma_sort_by_priority(unique, unique.len());
    assert(endpoints.take(endpoints.len() as int) =~= endpoints);
    assert(unique.take(unique.len() as int) =~= unique);
}

/// Remove the endpoints whose URL occurred earlier in the list.
pub fn remove_duplicate_urls(endpoints: &Vec<RpcEndpoint>) -> (unique: Vec<RpcEndpoint>)
    ensures
        unique@ == dedup_by_url(endpoints@, endpoints@.len()),
{
    let mut unique: Vec<RpcEndpoint> = Vec::new();
    let mut seen = UrlSet::new();
    let mut i: usize = 0;
    while i < endpoints.len()
        invariant
            i <= endpoints@.len(),
            unique@ == dedup_by_url(endpoints@, i as nat),
            forall|url: Seq<char>|
                seen@.contains(url) <==> exists|j: int|
                    0 <= j < i && (#[trigger] endpoints@[j]).url@ == url,
        decreases endpoints@.len() - i,
    {
        let e = &endpoints[i];
        let fresh = seen.insert(e.url.clone());
        if fresh {
            unique.push(e.duplicate());
        }
        proof {
            assert(fresh == !url_seen_before(endpoints@, i as int));
            assert forall|url: Seq<char>|
                seen@.contains(url) <==> exists|j: int|
                    0 <= j < i + 1 && (#[trigger] endpoints@[j]).url@ == url by {
                if seen@.contains(url) && url != e.url@ {
                    let j = choose|j: int| 0 <= j < i && (#[trigger] endpoints@[j]).url@ == url;
                    assert(0 <= j < i + 1 && endpoints@[j].url@ == url);
                }
                if url == e.url@ {
                    assert(endpoints@[i as int].url@ == url);
                }
            }
        }
        i = i + 1;
    }
    unique
}

/// Sort endpoints by priority, lower values first; endpoints of equal
/// priority keep their order.
pub fn sort_endpoints(endpoints: &Vec<RpcEndpoint>) -> (sorted: Vec<RpcEndpoint>)
    ensures
        sorted@ == sort_by_priority(endpoints@, endpoints@.len()),
{
    let mut sorted: Vec<RpcEndpoint> = Vec::new();
    let mut i: usize = 0;
    while i < endpoints.len()
        invariant
            i <= endpoints@.len(),
            sorted@ == sort_by_priority(endpoints@, i as nat),
            sorted@.len() == i,
        decreases endpoints@.len() - i,
    {
        let e = endpoints[i].duplicate();
        let mut pos: usize = sorted.len();
        proof {
            assert(sorted@.take(sorted@.len() as int) =~= sorted@);
        }
        while pos > 0 && sorted[pos - 1].priority > e.priority
            invariant
                pos <= sorted@.len(),
                insert_position(sorted@, e.priority) == insert_position(
                    sorted@.take(pos as int),
                    e.priority,
                ),
            decreases pos,
        {
            proof {
                assert(sorted@.take(pos as int).drop_last() =~= sorted@.take(pos - 1));
            }
            pos = pos - 1;
        }
        proof {
            assert(sorted@.take(sorted@.len() as int) =~= sorted@);
            let prefix = sorted@.take(pos as int);
            assert(insert_position(prefix, e.priority) == pos);
        }
        sorted.insert(pos, e);
        i = i + 1;
    }
    sorted
}

} // verus!
