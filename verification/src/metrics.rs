//! Read-only figures of a pool, for monitoring.
//!
//! Fractional figures are integers in thousandths: rates in thousandths of a
//! percent, latency averages in microseconds.

use crate::endpoint::rate_milli_percent;
use crate::endpoint::EndpointStats;
use vstd::prelude::*;

verus! {

/// The figures of one endpoint: a part of its statistics and its success
/// rate.
#[derive(Debug, Clone)]
pub struct EndpointMetrics {
    /// Endpoint URL.
    pub url: String,
    /// Endpoint name.
    pub name: String,
    /// Total number of requests sent.
    pub total_requests: u64,
    /// Number of successful requests.
    pub successful_requests: u64,
    /// Number of failed requests.
    pub failed_requests: u64,
    /// Average latency in microseconds; 0 means "no observation yet".
    pub avg_latency_micros: u128,
    /// Latency of the most recent request, in milliseconds.
    pub last_latency_ms: u64,
    /// Whether the endpoint is considered healthy.
    pub is_healthy: bool,
    /// Number of consecutive errors.
    pub consecutive_errors: u32,
    /// Success rate in thousandths of a percent.
    pub success_rate: u64,
}

/// The figures of a pool.
#[derive(Debug, Clone)]
pub struct RpcPoolMetrics {
    /// Total number of requests made through the pool.
    pub total_requests: u64,
    /// Number of failed attempts, each of which made the pool move on.
    pub failovers: u64,
    /// Name of the endpoint that the strategy currently prefers, or "none".
    pub current_endpoint: String,
    /// The figures of each endpoint.
    pub endpoints: Vec<EndpointMetrics>,
}

impl EndpointMetrics {
    /// The figures that belong to the statistics of an endpoint.
    pub open spec fn spec_from_stats(stats: EndpointStats) -> Self {
        EndpointMetrics {
            url: stats.url,
            name: stats.name,
            total_requests: stats.total_requests,
            successful_requests: stats.successful_requests,
            failed_requests: stats.failed_requests,
            avg_latency_micros: stats.avg_latency_micros,
            last_latency_ms: stats.last_latency_ms,
            is_healthy: stats.is_healthy,
            consecutive_errors: stats.consecutive_errors,
            success_rate: stats.spec_success_rate() as u64,
        }
    }

    /// Take the figures of an endpoint from its statistics.
    pub fn from_stats(stats: &EndpointStats) -> (m: Self)
        requires
            stats.wf(),
        ensures
            m == EndpointMetrics::spec_from_stats(*stats),
            m.successful_requests <= m.total_requests,
    {
        EndpointMetrics {
            url: stats.url.clone(),
            name: stats.name.clone(),
            total_requests: stats.total_requests,
            successful_requests: stats.successful_requests,
            failed_requests: stats.failed_requests,
            avg_latency_micros: stats.avg_latency_micros,
            last_latency_ms: stats.last_latency_ms,
            is_healthy: stats.is_healthy,
            consecutive_errors: stats.consecutive_errors,
            success_rate: stats.success_rate(),
        }
    }

    /// Whether the latency of this endpoint enters the average of the pool: the
    /// endpoint is healthy and has an observation.
    pub open spec fn has_latency(self) -> bool {
        self.is_healthy && self.avg_latency_micros > 0
    }
}

/// Requests sent to the first `n` endpoints.
pub open spec fn total_sent(endpoints: Seq<EndpointMetrics>, n: nat) -> nat
    decreases n,
{
    if n == 0 {
        0
    } else {
        total_sent(endpoints, (n - 1) as nat) + endpoints[n - 1].total_requests as nat
    }
}

/// Successful requests of the first `n` endpoints.
pub open spec fn total_succeeded(endpoints: Seq<EndpointMetrics>, n: nat) -> nat
    decreases n,
{
    if n == 0 {
        0
    } else {
        total_succeeded(endpoints, (n - 1) as nat) + endpoints[n - 1].successful_requests as nat
    }
}

/// Number of healthy endpoints among the first `n`.
pub open spec fn healthy_among(endpoints: Seq<EndpointMetrics>, n: nat) -> nat
    decreases n,
{
    if n == 0 {
        0
    } else {
        healthy_among(endpoints, (n - 1) as nat) + if endpoints[n - 1].is_healthy {
            1nat
        } else {
            0nat
        }
    }
}

/// Number of endpoints among the first `n` whose latency enters the average.
pub open spec fn latency_count(endpoints: Seq<EndpointMetrics>, n: nat) -> nat
    decreases n,
{
    if n == 0 {
        0
    } else {
        latency_count(endpoints, (n - 1) as nat) + if endpoints[n - 1].has_latency() {
            1nat
        } else {
            0nat
        }
    }
}

/// Sum of the latency averages, among the first `n` endpoints, of those whose
/// latency enters the average.
pub open spec fn latency_sum(endpoints: Seq<EndpointMetrics>, n: nat) -> nat
    decreases n,
{
    if n == 0 {
        0
    } else {
        latency_sum(endpoints, (n - 1) as nat) + if endpoints[n - 1].has_latency() {
            endpoints[n - 1].avg_latency_micros as nat
        } else {
            0nat
        }
    }
}

/// The sums over a prefix do not exceed the sums over the whole list, and no
/// more requests succeeded than were sent.
proof fn lemma_sums_grow(endpoints: Seq<EndpointMetrics>, n: nat, m: nat)
    requires
        n <= m <= endpoints.len(),
        forall|i: int|
            0 <= i < endpoints.len() ==> (#[trigger] endpoints[i]).successful_requests
                <= endpoints[i].total_requests,
    ensures
        total_sent(endpoints, n) <= total_sent(endpoints, m),
        latency_sum(endpoints, n) <= latency_sum(endpoints, m),
        total_succeeded(endpoints, n) <= total_sent(endpoints, n),
        latency_count(endpoints, n) <= n,
        healthy_among(endpoints, n) <= n,
    decreases m,
{
    if n < m {
        lemma_sums_grow(endpoints, n, (m - 1) as nat);
    } else if n > 0 {
        lemma_sums_grow(endpoints, (n - 1) as nat, (n - 1) as nat);
    }
}

impl RpcPoolMetrics {
    /// What holds of the figures of a pool: no endpoint has more successes
    /// than requests.
    pub open spec fn wf(self) -> bool {
        forall|i: int|
            0 <= i < self.endpoints@.len() ==> (#[trigger] self.endpoints@[i]).successful_requests
                <= self.endpoints@[i].total_requests
    }

    /// Success rate over all endpoints, in thousandths of a percent; 100%
    /// where no request was sent.
    pub open spec fn spec_total_success_rate(self) -> int {
        rate_milli_percent(
            total_succeeded(self.endpoints@, self.endpoints@.len()) as int,
            total_sent(self.endpoints@, self.endpoints@.len()) as int,
            100_000,
        )
    }

    /// Average latency over the healthy endpoints that have an observation,
    /// in microseconds; 0 where there is none.
    pub open spec fn spec_avg_latency(self) -> int {
        let count = latency_count(self.endpoints@, self.endpoints@.len());
        if count == 0 {
            0
        } else {
            latency_sum(self.endpoints@, self.endpoints@.len()) as int / count as int
        }
    }

    /// Success rate over all endpoints, in thousandths of a percent, rounded
    /// down; 100% (that is 100,000) where no request was sent. The requests of
    /// all endpoints together have to fit a `u64`.
    pub fn total_success_rate(&self) -> (r: u64)
        requires
            self.wf(),
            total_sent(self.endpoints@, self.endpoints@.len()) <= u64::MAX,
        ensures
            r == self.spec_total_success_rate(),
            r <= 100_000,
    {
        let mut total: u64 = 0;
        let mut successful: u64 = 0;
        let mut i: usize = 0;
        while i < self.endpoints.len()
            invariant
                i <= self.endpoints@.len(),
                self.wf(),
                total_sent(self.endpoints@, self.endpoints@.len()) <= u64::MAX,
                total == total_sent(self.endpoints@, i as nat),
                successful == total_succeeded(self.endpoints@, i as nat),
            decreases self.endpoints@.len() - i,
        {
            proof {
                lemma_sums_grow(self.endpoints@, (i + 1) as nat, self.endpoints@.len());
            }
            total = total + self.endpoints[i].total_requests;
            successful = successful + self.endpoints[i].successful_requests;
            i = i + 1;
        }
        if total == 0 {
            return 100_000;
        }
        proof {
            lemma_sums_grow(self.endpoints@, self.endpoints@.len(), self.endpoints@.len());
        }
        let part: u128 = successful as u128 * 100_000;
        let r: u128 = part / (total as u128);
        assert(r <= 100_000) by (nonlinear_arith)
            requires
                r == part / (total as u128),
                part == successful * 100_000,
                successful <= total,
                total > 0,
        ;
        r as u64
    }

    /// The number of healthy endpoints.
    pub fn healthy_count(&self) -> (r: usize)
        ensures
            r == healthy_among(self.endpoints@, self.endpoints@.len()),
    {
        let mut count: usize = 0;
        let mut i: usize = 0;
        while i < self.endpoints.len()
            invariant
                i <= self.endpoints@.len(),
                count == healthy_among(self.endpoints@, i as nat),
                count <= i,
            decreases self.endpoints@.len() - i,
        {
            if self.endpoints[i].is_healthy {
                count = count + 1;
            }
            i = i + 1;
        }
        count
    }

    /// Average latency over the healthy endpoints that have an observation,
    /// in microseconds, rounded down; 0 where there is none. The latencies
    /// that enter have to fit a `u128` together.
    pub fn avg_latency(&self) -> (r: u128)
        requires
            self.wf(),
            latency_sum(self.endpoints@, self.endpoints@.len()) <= u128::MAX,
        ensures
            r == self.spec_avg_latency(),
    {
        let mut sum: u128 = 0;
        let mut count: usize = 0;
        let mut i: usize = 0;
        while i < self.endpoints.len()
            invariant
                i <= self.endpoints@.len(),
                self.wf(),
                latency_sum(self.endpoints@, self.endpoints@.len()) <= u128::MAX,
                sum == latency_sum(self.endpoints@, i as nat),
                count == latency_count(self.endpoints@, i as nat),
                count <= i,
            decreases self.endpoints@.len() - i,
        {
            proof {
                lemma_sums_grow(self.endpoints@, (i + 1) as nat, self.endpoints@.len());
            }
            let e = &self.endpoints[i];
            if e.is_healthy && e.avg_latency_micros > 0 {
                sum = sum + e.avg_latency_micros;
                count = count + 1;
            }
            i = i + 1;
        }
        if count == 0 {
            return 0;
        }
        sum / (count as u128)
    }
}

} // verus!
