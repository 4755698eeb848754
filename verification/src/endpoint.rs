//! Endpoint descriptors, capability grading and per-endpoint statistics.

use crate::time::clock_now;
use crate::time::duration_nanos;
use std::time::Duration;
use std::time::Instant;
use vstd::arithmetic::power2::*;
use vstd::prelude::*;
use vstd::string::*;

verus! {

/// Quality grade of an endpoint, ordered `F < D < C < B < A`.
#[derive(Clone, Copy, Debug, PartialEq, Eq, Structural, PartialOrd, Ord, Hash)]
pub enum EndpointGrade {
    /// Unreachable endpoint.
    F,
    /// No log queries, or nothing known.
    D,
    /// Log queries with a small batch or block range.
    C,
    /// Log queries, batch of at least 10, block range of at least 1,000.
    B,
    /// Log queries, batch of at least 100, block range of at least 10,000.
    A,
}

impl EndpointGrade {
    /// Position of the grade in the order `F < D < C < B < A`.
    pub open spec fn spec_rank(self) -> int {
        match self {
            EndpointGrade::F => 0,
            EndpointGrade::D => 1,
            EndpointGrade::C => 2,
            EndpointGrade::B => 3,
            EndpointGrade::A => 4,
        }
    }

    /// The letter of the grade.
    pub open spec fn spec_label(self) -> Seq<char> {
        match self {
            EndpointGrade::A => "A"@,
            EndpointGrade::B => "B"@,
            EndpointGrade::C => "C"@,
            EndpointGrade::D => "D"@,
            EndpointGrade::F => "F"@,
        }
    }

    /// Position of the grade in the order `F < D < C < B < A`.
    pub fn rank(&self) -> (r: u8)
        ensures
            r == self.spec_rank(),
    {
        match self {
            EndpointGrade::F => 0,
            EndpointGrade::D => 1,
            EndpointGrade::C => 2,
            EndpointGrade::B => 3,
            EndpointGrade::A => 4,
        }
    }

    /// The letter of the grade, as text.
    pub fn to_string(&self) -> (r: String)
        ensures
            r@ == self.spec_label(),
    {
        match self {
            EndpointGrade::A => String::from_str("A"),
            EndpointGrade::B => String::from_str("B"),
            EndpointGrade::C => String::from_str("C"),
            EndpointGrade::D => String::from_str("D"),
            EndpointGrade::F => String::from_str("F"),
        }
    }
}

/// What is known about the features of an endpoint.
#[derive(Clone, Copy, Debug)]
pub struct EndpointCapabilities {
    /// Whether the endpoint answers log queries. `None` = untested.
    pub supports_eth_get_logs: Option<bool>,
    /// Maximum batch request size. `None` = unknown, `Some(0)` = unlimited.
    pub max_batch_size: Option<u32>,
    /// Maximum block range for log queries. `None` = unknown, `Some(0)` = unlimited.
    pub max_block_range: Option<u64>,
    /// Whether the endpoint supports transaction tracing. `None` = untested.
    pub supports_debug_trace: Option<bool>,
    /// Whether the endpoint offers a WebSocket transport.
    pub supports_websocket: bool,
    /// Known rate limit in requests per second. `None` = unknown.
    pub rate_limit_rps: Option<u32>,
}

/// Priority adjustment that belongs to a grade. `has_data` tells a D that was
/// measured from a D that stands for "nothing known".
pub open spec fn adjustment_for(grade: EndpointGrade, has_data: bool) -> int {
    match grade {
        EndpointGrade::A => -20,
        EndpointGrade::B => -10,
        EndpointGrade::C => 0,
        EndpointGrade::D => if has_data {
            10
        } else {
            0
        },
        EndpointGrade::F => 50,
    }
}

impl EndpointCapabilities {
    /// The block in which nothing is known.
    pub open spec fn spec_unknown() -> Self {
        EndpointCapabilities {
            supports_eth_get_logs: None,
            max_batch_size: None,
            max_block_range: None,
            supports_debug_trace: None,
            supports_websocket: false,
            rate_limit_rps: None,
        }
    }

    /// Whether any of the three graded fields is known.
    pub open spec fn has_any_data(self) -> bool {
        self.supports_eth_get_logs is Some || self.max_batch_size is Some
            || self.max_block_range is Some
    }

    /// Batch limit with "unknown" read as "unlimited".
    pub open spec fn batch_or_unlimited(self) -> int {
        match self.max_batch_size {
            Some(b) => b as int,
            None => 0,
        }
    }

    /// Block range limit with "unknown" read as "unlimited".
    pub open spec fn range_or_unlimited(self) -> int {
        match self.max_block_range {
            Some(r) => r as int,
            None => 0,
        }
    }

    /// The grade of a capability block.
    pub open spec fn spec_grade(self) -> EndpointGrade {
        let b = self.batch_or_unlimited();
        let r = self.range_or_unlimited();
        if self.supports_eth_get_logs != Some(true) {
            EndpointGrade::D
        } else if (b == 0 || b >= 100) && (r == 0 || r >= 10_000) {
            EndpointGrade::A
        } else if (b == 0 || b >= 10) && (r == 0 || r >= 1_000) {
            EndpointGrade::B
        } else {
            EndpointGrade::C
        }
    }

    /// The priority adjustment of a capability block.
    pub open spec fn spec_priority_adjustment(self) -> int {
        adjustment_for(self.spec_grade(), self.has_any_data())
    }

    /// Compute a quality grade from the known capabilities. The grade is
    /// never `F`: that one is kept for endpoints that cannot be reached.
    pub fn grade(&self) -> (g: EndpointGrade)
        ensures
            g == self.spec_grade(),
            g != EndpointGrade::F,
    {
        let has_any_data = self.supports_eth_get_logs.is_some() || self.max_batch_size.is_some()
            || self.max_block_range.is_some();
        if !has_any_data {
            return EndpointGrade::D;
        }
        let supports_logs = match self.supports_eth_get_logs {
            Some(v) => v,
            None => false,
        };
        if !supports_logs {
            return EndpointGrade::D;
        }
        let batch: u32 = match self.max_batch_size {
            Some(b) => b,
            None => 0,
        };
        let range: u64 = match self.max_block_range {
            Some(r) => r,
            None => 0,
        };
        let batch_ok_a = batch == 0 || batch >= 100;
        let range_ok_a = range == 0 || range >= 10_000;
        if batch_ok_a && range_ok_a {
            return EndpointGrade::A;
        }
        let batch_ok_b = batch == 0 || batch >= 10;
        let range_ok_b = range == 0 || range >= 1_000;
        if batch_ok_b && range_ok_b {
            return EndpointGrade::B;
        }
        EndpointGrade::C
    }

    /// Priority adjustment derived from the grade; lower values are preferred.
    /// A block in which nothing is known is not adjusted.
    pub fn priority_adjustment(&self) -> (adj: i32)
        ensures
            adj == self.spec_priority_adjustment(),
    {
        match self.grade() {
            EndpointGrade::A => -20,
            EndpointGrade::B => -10,
            EndpointGrade::C => 0,
            EndpointGrade::D => {
                let has_any_data = self.supports_eth_get_logs.is_some()
                    || self.max_batch_size.is_some() || self.max_block_range.is_some();
                if has_any_data {
                    10
                } else {
                    0
                }
            },
            EndpointGrade::F => 50,
        }
    }
}

impl Default for EndpointCapabilities {
    fn default() -> (r: Self)
        ensures
            r == EndpointCapabilities::spec_unknown(),
    {
        EndpointCapabilities {
            supports_eth_get_logs: None,
            max_batch_size: None,
            max_block_range: None,
            supports_debug_trace: None,
            supports_websocket: false,
            rate_limit_rps: None,
        }
    }
}

/// Every capability block has one grade, and it is never `F`.
pub proof fn grade_is_total(caps: EndpointCapabilities)
    ensures
        caps.spec_grade() == EndpointGrade::A || caps.spec_grade() == EndpointGrade::B
            || caps.spec_grade() == EndpointGrade::C || caps.spec_grade() == EndpointGrade::D,
        !caps.has_any_data() ==> caps.spec_grade() == EndpointGrade::D,
{
}

/// The priority adjustment follows the grade: -20 for A, -10 for B, 0 for C,
/// +10 for a measured D and 0 for a D that stands for "nothing known".
pub proof fn adjustment_follows_grade(caps: EndpointCapabilities)
    ensures
        caps.spec_grade() == EndpointGrade::A ==> caps.spec_priority_adjustment() == -20,
        caps.spec_grade() == EndpointGrade::B ==> caps.spec_priority_adjustment() == -10,
        caps.spec_grade() == EndpointGrade::C ==> caps.spec_priority_adjustment() == 0,
        caps.spec_grade() == EndpointGrade::D && caps.has_any_data()
            ==> caps.spec_priority_adjustment() == 10,
        caps.spec_grade() == EndpointGrade::D && !caps.has_any_data()
            ==> caps.spec_priority_adjustment() == 0,
        adjustment_for(EndpointGrade::F, true) == 50,
        adjustment_for(EndpointGrade::F, false) == 50,
{
}

/// Name given to an endpoint that was described without one.
pub fn default_name() -> (r: String)
    ensures
        r@ == "unnamed"@,
{
    String::from_str("unnamed")
}

/// Priority given to an endpoint that was described without one.
pub fn default_priority() -> (r: u32)
    ensures
        r == 100,
{
    100
}

/// Configuration of a single endpoint.
#[derive(Clone, Debug)]
pub struct RpcEndpoint {
    /// Primary URL; identifies the endpoint within a pool.
    pub url: String,
    /// WebSocket URL (optional, for subscriptions).
    pub ws_url: Option<String>,
    /// Human-readable name for logs and metrics.
    pub name: String,
    /// Priority; lower values are preferred.
    pub priority: u32,
    /// Chain this endpoint serves.
    pub chain_id: u64,
    /// Capability metadata.
    pub capabilities: EndpointCapabilities,
}

impl RpcEndpoint {
    /// Create a new endpoint with minimal configuration: named after its URL,
    /// priority 100, chain 0, nothing known about its capabilities.
    pub fn new(url: &str) -> (r: Self)
        ensures
            r.url@ == url@,
            r.name@ == url@,
            r.ws_url is None,
            r.priority == 100,
            r.chain_id == 0,
            r.capabilities == EndpointCapabilities::spec_unknown(),
    {
        RpcEndpoint {
            name: String::from_str(url),
            url: String::from_str(url),
            ws_url: None,
            priority: 100,
            chain_id: 0,
            capabilities: EndpointCapabilities::default(),
        }
    }

    /// Builder: set the endpoint name.
    pub fn with_name(self, name: &str) -> (r: Self)
        ensures
            r.name@ == name@,
            r == (RpcEndpoint { name: r.name, ..self }),
    {
        let mut r = self;
        r.name = String::from_str(name);
        r
    }

    /// Builder: set the WebSocket URL, which also marks the endpoint as
    /// WebSocket-capable.
    pub fn with_ws_url(self, ws_url: &str) -> (r: Self)
        ensures
            r.ws_url matches Some(w) && w@ == ws_url@,
            r.capabilities == (EndpointCapabilities {
                supports_websocket: true,
                ..self.capabilities
            }),
            r == (RpcEndpoint { ws_url: r.ws_url, capabilities: r.capabilities, ..self }),
    {
        let mut r = self;
        r.ws_url = Some(String::from_str(ws_url));
        r.capabilities.supports_websocket = true;
        r
    }

    /// Builder: set the priority (lower values are preferred).
    pub fn with_priority(self, priority: u32) -> (r: Self)
        ensures
            r == (RpcEndpoint { priority, ..self }),
    {
        let mut r = self;
        r.priority = priority;
        r
    }

    /// Builder: set the chain.
    pub fn with_chain_id(self, chain_id: u64) -> (r: Self)
        ensures
            r == (RpcEndpoint { chain_id, ..self }),
    {
        let mut r = self;
        r.chain_id = chain_id;
        r
    }

    /// Builder: set the capability metadata.
    pub fn with_capabilities(self, capabilities: EndpointCapabilities) -> (r: Self)
        ensures
            r == (RpcEndpoint { capabilities, ..self }),
    {
        let mut r = self;
        r.capabilities = capabilities;
        r
    }

    /// An exact copy of the endpoint.
    pub fn duplicate(&self) -> (r: Self)
        ensures
            r == *self,
    {
        RpcEndpoint {
            url: self.url.clone(),
            ws_url: match &self.ws_url {
                Some(w) => Some(w.clone()),
                None => None,
            },
            name: self.name.clone(),
            priority: self.priority,
            chain_id: self.chain_id,
            capabilities: self.capabilities,
        }
    }
}

/// Longest recovery backoff, in seconds.
pub const MAX_RECOVERY_BACKOFF_SECS: u64 = 300;

/// Longest recovery backoff, in nanoseconds.
pub const MAX_RECOVERY_BACKOFF_NANOS: u64 = 300_000_000_000;

/// Largest number of recovery attempts that still lengthens the backoff.
pub const MAX_RECOVERY_ATTEMPTS: u32 = 10;

/// Fractional quantities are kept as integers in thousandths: a latency
/// average in microseconds, a rate in thousandths of a percent.
pub const FIXED_POINT_SCALE: u64 = 1000;

/// Delay before the next probe of a quarantined endpoint, in nanoseconds:
/// the base delay doubled once per failed recovery attempt (at most ten
/// times), capped at 300 seconds.
pub open spec fn backoff_delay_nanos(base_nanos: int, attempts: int) -> int {
    let k = if attempts > 10 {
        10
    } else if attempts < 0 {
        0
    } else {
        attempts
    };
    let raw = base_nanos * pow2(k as nat);
    if raw > 300_000_000_000 {
        300_000_000_000
    } else {
        raw
    }
}

/// One step of the latency average: the first observation is taken as it
/// is, later ones enter with weight one tenth. Averages are in microseconds,
/// observations in milliseconds.
pub open spec fn ema_step(avg_micros: int, latency_ms: int) -> int {
    if avg_micros == 0 {
        latency_ms * 1000
    } else {
        (avg_micros * 9 + latency_ms * 1000) / 10
    }
}

/// The latency average after a run of observations.
pub open spec fn ema_fold(avg_micros: int, observations: Seq<u64>) -> int
    decreases observations.len(),
{
    if observations.len() == 0 {
        avg_micros
    } else {
        ema_step(ema_fold(avg_micros, observations.drop_last()), observations.last() as int)
    }
}

/// A rate in thousandths of a percent, rounded down; `whole` of zero gives the
/// value `if_none`.
pub open spec fn rate_milli_percent(part: int, whole: int, if_none: int) -> int {
    if whole == 0 {
        if_none
    } else {
        (part * 100_000) / whole
    }
}

/// Compute `backoff_delay_nanos` on machine integers.
pub fn backoff_nanos(base_nanos: u128, attempts: u32) -> (r: u64)
    ensures
        r == backoff_delay_nanos(base_nanos as int, attempts as int),
        r <= MAX_RECOVERY_BACKOFF_NANOS,
{
    let k: u32 = if attempts > MAX_RECOVERY_ATTEMPTS {
        MAX_RECOVERY_ATTEMPTS
    } else {
        attempts
    };
    proof {
        lemma_pow2_pos(k as nat);
    }
    if base_nanos > MAX_RECOVERY_BACKOFF_NANOS as u128 {
        assert(base_nanos * pow2(k as nat) >= base_nanos) by (nonlinear_arith)
            requires
                pow2(k as nat) >= 1,
                base_nanos >= 0,
        ;
        return MAX_RECOVERY_BACKOFF_NANOS;
    }
    let mut mult: u128 = 1;
    let mut i: u32 = 0;
    proof {
        lemma2_to64();
    }
    while i < k
        invariant
            i <= k <= 10,
            mult == pow2(i as nat),
            mult <= 1024,
        decreases k - i,
    {
        proof {
            lemma_pow2_unfold((i + 1) as nat);
            lemma_pow2_strictly_increases(i as nat, 10);
            lemma2_to64();
        }
        mult = mult * 2;
        i = i + 1;
        proof {
            if i < 10 {
                lemma_pow2_strictly_increases(i as nat, 10);
            }
            lemma2_to64();
        }
    }
    assert(base_nanos * mult <= 300_000_000_000 * 1024) by (nonlinear_arith)
        requires
            base_nanos <= 300_000_000_000,
            mult <= 1024,
    ;
    let raw: u128 = base_nanos * mult;
    if raw > MAX_RECOVERY_BACKOFF_NANOS as u128 {
        MAX_RECOVERY_BACKOFF_NANOS
    } else {
        raw as u64
    }
}

/// Whether a quarantined endpoint is due for a probe once `elapsed` has
/// passed since its last error: the time elapsed is at least the backoff for
/// `attempts` failed recovery attempts.
pub open spec fn due_after(elapsed: Duration, base_retry_delay: Duration, attempts: u32) -> bool {
    duration_nanos(elapsed) >= backoff_delay_nanos(
        duration_nanos(base_retry_delay) as int,
        attempts as int,
    )
}

/// Whether a quarantined endpoint is due for a probe: `elapsed_nanos`
/// nanoseconds have passed since its last error, and the backoff for
/// `attempts` failed recovery attempts asks for `backoff_delay_nanos`.
pub fn backoff_elapsed(elapsed_nanos: u128, base_nanos: u128, attempts: u32) -> (due: bool)
    ensures
        due == (elapsed_nanos >= backoff_delay_nanos(base_nanos as int, attempts as int)),
{
    elapsed_nanos >= backoff_nanos(base_nanos, attempts) as u128
}

/// The backoff never exceeds 300 seconds, whatever the base delay and the
/// number of attempts.
pub proof fn backoff_is_capped(base_nanos: int, attempts: int)
    ensures
        backoff_delay_nanos(base_nanos, attempts) <= 300_000_000_000,
{
}

/// For a fixed base delay the backoff does not shrink as recovery attempts
/// accumulate.
pub proof fn backoff_is_monotonic(base_nanos: int, attempts: int, later: int)
    requires
        0 <= base_nanos,
        0 <= attempts <= later,
    ensures
        backoff_delay_nanos(base_nanos, attempts) <= backoff_delay_nanos(base_nanos, later),
{
    let k1: nat = if attempts > 10 {
        10
    } else {
        attempts as nat
    };
    let k2: nat = if later > 10 {
        10
    } else {
        later as nat
    };
    if k1 < k2 {
        lemma_pow2_strictly_increases(k1, k2);
    }
    assert(base_nanos * pow2(k1) <= base_nanos * pow2(k2)) by (nonlinear_arith)
        requires
            0 <= base_nanos,
            pow2(k1) <= pow2(k2),
    ;
}

/// With no failed recovery attempt the backoff is the base delay itself, as
/// long as the base delay is within the cap of 300 seconds.
pub proof fn backoff_starts_at_base(base_nanos: int)
    requires
        0 <= base_nanos <= 300_000_000_000,
    ensures
        backoff_delay_nanos(base_nanos, 0) == base_nanos,
{
    lemma2_to64();
    assert(pow2(0nat) == 1);
    assert(base_nanos * pow2(0nat) == base_nanos);
}

/// One step of the latency average stays between the bounds of the
/// observations: an average inside `[lo, hi]` milliseconds (or no average
/// yet) and an observation inside `[lo, hi]` give an average inside
/// `[lo, hi]`.
pub proof fn ema_step_in_bounds(avg_micros: int, latency_ms: int, lo: int, hi: int)
    requires
        0 <= lo <= latency_ms <= hi,
        avg_micros == 0 || lo * 1000 <= avg_micros <= hi * 1000,
    ensures
        lo * 1000 <= ema_step(avg_micros, latency_ms) <= hi * 1000,
{
}

/// After any positive number of observations that all lie in `[lo, hi]`
/// milliseconds, the latency average of fresh statistics lies in `[lo, hi]`.
pub proof fn ema_in_bounds(observations: Seq<u64>, lo: int, hi: int)
    requires
        observations.len() > 0,
        0 <= lo,
        forall|i: int| 0 <= i < observations.len() ==> lo <= #[trigger] observations[i] <= hi,
    ensures
        lo * 1000 <= ema_fold(0, observations) <= hi * 1000,
    decreases observations.len(),
{
    let rest = observations.drop_last();
    if rest.len() == 0 {
        assert(ema_fold(0, rest) == 0);
    } else {
        assert forall|i: int| 0 <= i < rest.len() implies lo <= #[trigger] rest[i] <= hi by {
            assert(rest[i] == observations[i]);
        }
        ema_in_bounds(rest, lo, hi);
    }
    ema_step_in_bounds(ema_fold(0, rest), observations.last() as int, lo, hi);
}

/// Runtime statistics of one endpoint.
#[derive(Debug, Clone)]
pub struct EndpointStats {
    /// Endpoint URL (key).
    pub url: String,
    /// Endpoint name.
    pub name: String,
    /// Total number of requests sent.
    pub total_requests: u64,
    /// Number of successful requests.
    pub successful_requests: u64,
    /// Number of failed requests.
    pub failed_requests: u64,
    /// Exponential moving average of the latency, in microseconds
    /// (thousandths of a millisecond); 0 means "no observation yet".
    pub avg_latency_micros: u128,
    /// Latency of the most recent request, in milliseconds.
    pub last_latency_ms: u64,
    /// Most recent error message (if any).
    pub last_error: Option<String>,
    /// Time of the most recent error.
    pub last_error_time: Option<Instant>,
    /// Whether the endpoint is currently considered healthy.
    pub is_healthy: bool,
    /// Number of consecutive errors (reset by a success).
    pub consecutive_errors: u32,
    /// Number of consecutive failed recovery probes (drives the backoff).
    pub recovery_attempts: u32,
}

impl EndpointStats {
    /// What the counters of valid statistics satisfy: successes and failures
    /// add up to the total, the run of consecutive errors is no longer than the
    /// total, recovery attempts stay within their cap, and the latency average
    /// is one that millisecond observations can produce.
    pub open spec fn wf(self) -> bool {
        &&& self.successful_requests + self.failed_requests == self.total_requests
        &&& self.consecutive_errors <= self.total_requests
        &&& self.recovery_attempts <= MAX_RECOVERY_ATTEMPTS
        &&& self.avg_latency_micros <= u64::MAX * 1000
    }

    /// Valid statistics whose health fields agree with their history: without
    /// a request there is no latency, and an unhealthy endpoint has the time
    /// of an error.
    pub open spec fn consistent(self) -> bool {
        &&& self.wf()
        &&& self.total_requests == 0 ==> self.avg_latency_micros == 0 && self.last_latency_ms == 0
        &&& !self.is_healthy ==> self.last_error_time is Some
    }

    /// The statistics after one more latency observation.
    pub open spec fn after_latency(self, latency_ms: u64) -> Self {
        EndpointStats {
            avg_latency_micros: ema_step(self.avg_latency_micros as int, latency_ms as int) as u128,
            last_latency_ms: latency_ms,
            ..self
        }
    }

    /// The statistics after a successful request. The counters stop at
    /// `u64::MAX` together, so that they always add up.
    pub open spec fn after_success(self, latency_ms: u64) -> Self {
        let counted = self.total_requests < u64::MAX;
        EndpointStats {
            total_requests: if counted {
                (self.total_requests + 1) as u64
            } else {
                self.total_requests
            },
            successful_requests: if counted {
                (self.successful_requests + 1) as u64
            } else {
                self.successful_requests
            },
            consecutive_errors: 0,
            is_healthy: true,
            ..self.after_latency(latency_ms)
        }
    }

    /// Whether one more failure reaches the limit of consecutive errors.
    pub open spec fn failure_quarantines(self, max_consecutive: u32) -> bool {
        self.consecutive_errors + 1 >= max_consecutive
    }

    /// The statistics after a failed request that was noticed at `at`.
    pub open spec fn after_failure(self, error: String, max_consecutive: u32, at: Instant) -> Self {
        let counted = self.total_requests < u64::MAX;
        EndpointStats {
            total_requests: if counted {
                (self.total_requests + 1) as u64
            } else {
                self.total_requests
            },
            failed_requests: if counted {
                (self.failed_requests + 1) as u64
            } else {
                self.failed_requests
            },
            consecutive_errors: if self.consecutive_errors < u32::MAX {
                (self.consecutive_errors + 1) as u32
            } else {
                self.consecutive_errors
            },
            last_error: Some(error),
            last_error_time: Some(at),
            is_healthy: self.is_healthy && !self.failure_quarantines(max_consecutive),
            ..self
        }
    }

    /// The statistics after one more failed recovery probe.
    pub open spec fn after_recovery_attempt(self) -> Self {
        EndpointStats {
            recovery_attempts: if self.recovery_attempts < MAX_RECOVERY_ATTEMPTS {
                (self.recovery_attempts + 1) as u32
            } else {
                self.recovery_attempts
            },
            ..self
        }
    }

    /// The statistics after a successful recovery probe.
    pub open spec fn after_recovery(self) -> Self {
        EndpointStats { is_healthy: true, consecutive_errors: 0, recovery_attempts: 0, ..self }
    }

    /// The statistics after the endpoint was declared unhealthy at `at`.
    pub open spec fn after_mark_unhealthy(self, at: Instant) -> Self {
        EndpointStats { is_healthy: false, last_error_time: Some(at), ..self }
    }

    /// The statistics after a recovery probe failed at `at`.
    pub open spec fn after_probe_failure(self, at: Instant) -> Self {
        EndpointStats { last_error_time: Some(at), ..self }.after_recovery_attempt()
    }

    /// Success rate in thousandths of a percent; 100% before any request.
    pub open spec fn spec_success_rate(self) -> int {
        rate_milli_percent(self.successful_requests as int, self.total_requests as int, 100_000)
    }

    /// The statistics of an endpoint that has not been used yet.
    pub open spec fn spec_new(endpoint: RpcEndpoint) -> Self {
        EndpointStats {
            url: endpoint.url,
            name: endpoint.name,
            total_requests: 0,
            successful_requests: 0,
            failed_requests: 0,
            avg_latency_micros: 0,
            last_latency_ms: 0,
            last_error: None,
            last_error_time: None,
            is_healthy: true,
            consecutive_errors: 0,
            recovery_attempts: 0,
        }
    }

    /// Create the statistics of an endpoint: no request yet, healthy.
    pub fn new(endpoint: &RpcEndpoint) -> (r: Self)
        ensures
            r == EndpointStats::spec_new(*endpoint),
            r.consistent(),
    {
        EndpointStats {
            url: endpoint.url.clone(),
            name: endpoint.name.clone(),
            total_requests: 0,
            successful_requests: 0,
            failed_requests: 0,
            avg_latency_micros: 0,
            last_latency_ms: 0,
            last_error: None,
            last_error_time: None,
            is_healthy: true,
            consecutive_errors: 0,
            recovery_attempts: 0,
        }
    }

    /// An exact copy of the statistics.
    pub fn snapshot(&self) -> (r: Self)
        ensures
            r == *self,
    {
        EndpointStats {
            url: self.url.clone(),
            name: self.name.clone(),
            total_requests: self.total_requests,
            successful_requests: self.successful_requests,
            failed_requests: self.failed_requests,
            avg_latency_micros: self.avg_latency_micros,
            last_latency_ms: self.last_latency_ms,
            last_error: match &self.last_error {
                Some(e) => Some(e.clone()),
                None => None,
            },
            last_error_time: self.last_error_time,
            is_healthy: self.is_healthy,
            consecutive_errors: self.consecutive_errors,
            recovery_attempts: self.recovery_attempts,
        }
    }

    /// Feed one latency observation, in milliseconds, into the moving
    /// average: 90% history, 10% current observation.
    pub fn update_latency(&mut self, latency_ms: u64)
        requires
            old(self).avg_latency_micros <= u64::MAX * 1000,
        ensures
            *final(self) == old(self).after_latency(latency_ms),
            final(self).avg_latency_micros <= u64::MAX * 1000,
            old(self).wf() ==> final(self).wf(),
    {
        self.last_latency_ms = latency_ms;
        let scaled: u128 = latency_ms as u128 * 1000;
        if self.avg_latency_micros == 0 {
            self.avg_latency_micros = scaled;
        } else {
            self.avg_latency_micros = (self.avg_latency_micros * 9 + scaled) / 10;
        }
    }

    /// Record a successful request: count it, feed its latency into the
    /// average, end the run of consecutive errors and mark the endpoint
    /// healthy. Recovery attempts are left as they are.
    pub fn record_success(&mut self, latency_ms: u64)
        requires
            old(self).wf(),
        ensures
            *final(self) == old(self).after_success(latency_ms),
            final(self).wf(),
            final(self).is_healthy,
            final(self).consecutive_errors == 0,
            final(self).successful_requests + final(self).failed_requests
                == final(self).total_requests,
            old(self).consistent() ==> final(self).consistent(),
    {
        if self.total_requests < u64::MAX {
            self.total_requests += 1;
            self.successful_requests += 1;
        }
        self.update_latency(latency_ms);
        self.consecutive_errors = 0;
        self.is_healthy = true;
    }

    /// Record a failed request that was noticed at `at`. Returns `true` if the
    /// run of consecutive errors has reached `max_consecutive`; the endpoint is
    /// then unhealthy. A failure never makes an unhealthy endpoint healthy.
    pub fn record_failure_at(&mut self, error: String, max_consecutive: u32, at: Instant) -> (quarantined:
        bool)
        requires
            old(self).wf(),
        ensures
            *final(self) == old(self).after_failure(error, max_consecutive, at),
            quarantined == old(self).failure_quarantines(max_consecutive),
            quarantined ==> !final(self).is_healthy,
            !old(self).is_healthy ==> !final(self).is_healthy,
            final(self).wf(),
            final(self).successful_requests + final(self).failed_requests
                == final(self).total_requests,
            old(self).consistent() ==> final(self).consistent(),
    {
        if self.total_requests < u64::MAX {
            self.total_requests += 1;
            self.failed_requests += 1;
        }
        let reached = self.consecutive_errors == u32::MAX || self.consecutive_errors + 1
            >= max_consecutive;
        if self.consecutive_errors < u32::MAX {
            self.consecutive_errors += 1;
        }
        self.last_error = Some(error);
        self.last_error_time = Some(at);
        if reached {
            self.is_healthy = false;
            true
        } else {
            false
        }
    }

    /// Record a failed request, noticed now. Returns `true` if the run of
    /// consecutive errors has reached `max_consecutive`; the endpoint is then
    /// unhealthy.
    pub fn record_failure(&mut self, error: String, max_consecutive: u32) -> (quarantined: bool)
        requires
            old(self).wf(),
        ensures
            final(self).last_error_time is Some,
            *final(self) == old(self).after_failure(
                error,
                max_consecutive,
                final(self).last_error_time->0,
            ),
            quarantined == old(self).failure_quarantines(max_consecutive),
            quarantined ==> !final(self).is_healthy,
            !old(self).is_healthy ==> !final(self).is_healthy,
            final(self).wf(),
            old(self).consistent() ==> final(self).consistent(),
    {
        let at = clock_now();
        self.record_failure_at(error, max_consecutive, at)
    }

    /// Success rate in thousandths of a percent, rounded down; 100% (that is
    /// 100,000) before any request.
    pub fn success_rate(&self) -> (r: u64)
        requires
            self.wf(),
        ensures
            r == self.spec_success_rate(),
            r <= 100_000,
    {
        if self.total_requests == 0 {
            return 100_000;
        }
        let part: u128 = self.successful_requests as u128 * 100_000;
        let r: u128 = part / (self.total_requests as u128);
        assert(r <= 100_000) by (nonlinear_arith)
            requires
                r == part / (self.total_requests as u128),
                part == self.successful_requests * 100_000,
                self.successful_requests <= self.total_requests,
                self.total_requests > 0,
        ;
        r as u64
    }

    /// Whether enough time has passed since the last error for another probe:
    /// the time that the clock says has elapsed since then is at least
    /// `backoff_delay_nanos`. Statistics without an error are always due, and
    /// so are all statistics where the backoff asks for no delay.
    pub fn can_retry(&self, base_retry_delay: Duration) -> (due: bool)
        ensures
            match self.last_error_time {
                Some(_) => exists|elapsed: Duration|
                    due == #[trigger] due_after(elapsed, base_retry_delay, self.recovery_attempts),
                None => due,
            },
            backoff_delay_nanos(
                duration_nanos(base_retry_delay) as int,
                self.recovery_attempts as int,
            ) == 0 ==> due,
    {
        match &self.last_error_time {
            Some(t) => {
                let elapsed = t.elapsed();
                let due = backoff_elapsed(
                    elapsed.as_nanos(),
                    base_retry_delay.as_nanos(),
                    self.recovery_attempts,
                );
                assert(due == due_after(elapsed, base_retry_delay, self.recovery_attempts));
                due
            },
            None => true,
        }
    }

    /// The current retry delay: the base delay with the exponential backoff
    /// for the recovery attempts made so far, at most 300 seconds. With no
    /// recovery attempt it is the base delay itself, up to that cap.
    pub fn current_retry_delay(&self, base_retry_delay: Duration) -> (d: Duration)
        ensures
            duration_nanos(d) == backoff_delay_nanos(
                duration_nanos(base_retry_delay) as int,
                self.recovery_attempts as int,
            ),
            duration_nanos(d) <= MAX_RECOVERY_BACKOFF_NANOS,
    {
        Duration::from_nanos(backoff_nanos(base_retry_delay.as_nanos(), self.recovery_attempts))
    }

    /// Count one more failed recovery probe, up to ten.
    pub fn increment_recovery_attempts(&mut self)
        ensures
            *final(self) == old(self).after_recovery_attempt(),
            old(self).wf() ==> final(self).wf(),
            old(self).consistent() ==> final(self).consistent(),
    {
        if self.recovery_attempts < MAX_RECOVERY_ATTEMPTS {
            self.recovery_attempts += 1;
        }
    }

    /// Mark the endpoint as recovered: healthy, no consecutive errors, backoff
    /// reset.
    pub fn mark_recovered(&mut self)
        ensures
            *final(self) == old(self).after_recovery(),
            final(self).successful_requests + final(self).failed_requests
                == old(self).successful_requests + old(self).failed_requests,
            old(self).wf() ==> final(self).wf(),
            old(self).consistent() ==> final(self).consistent(),
    {
        self.is_healthy = true;
        self.consecutive_errors = 0;
        self.recovery_attempts = 0;
    }
}

/// One of the operations that change the statistics of an endpoint.
pub enum StatsOp {
    /// A successful request with its latency in milliseconds.
    Success(u64),
    /// A failed request: message, limit of consecutive errors, time.
    Failure(String, u32, Instant),
    /// A successful recovery probe.
    Recovered,
}

/// The statistics after one operation.
pub open spec fn apply_op(stats: EndpointStats, op: StatsOp) -> EndpointStats {
    match op {
        StatsOp::Success(latency_ms) => stats.after_success(latency_ms),
        StatsOp::Failure(error, max_consecutive, at) => stats.after_failure(
            error,
            max_consecutive,
            at,
        ),
        StatsOp::Recovered => stats.after_recovery(),
    }
}

/// The statistics after a run of operations.
pub open spec fn apply_ops(stats: EndpointStats, ops: Seq<StatsOp>) -> EndpointStats
    decreases ops.len(),
{
    if ops.len() == 0 {
        stats
    } else {
        apply_op(apply_ops(stats, ops.drop_last()), ops.last())
    }
}

/// Whatever run of successes, failures and recoveries is applied to valid
/// statistics, successes and failures add up to the total after every step.
pub proof fn counters_add_up(stats: EndpointStats, ops: Seq<StatsOp>)
    requires
        stats.consistent(),
    ensures
        apply_ops(stats, ops).consistent(),
        apply_ops(stats, ops).successful_requests + apply_ops(stats, ops).failed_requests
            == apply_ops(stats, ops).total_requests,
    decreases ops.len(),
{
    if ops.len() > 0 {
        counters_add_up(stats, ops.drop_last());
    }
}

/// A failure never turns an unhealthy endpoint healthy; a success always
/// leaves the endpoint healthy with no consecutive errors.
pub proof fn health_within_a_burst(stats: EndpointStats, op: StatsOp)
    ensures
        op is Failure && !stats.is_healthy ==> !apply_op(stats, op).is_healthy,
        op is Success ==> apply_op(stats, op).is_healthy && apply_op(stats, op).consecutive_errors
            == 0,
{
}

} // verus!
