//! High-availability pool of JSON-RPC endpoints.
//!
//! Given a list of endpoints that serve the same service, a pool sends each
//! request through one endpoint, moves on to another one when that fails,
//! keeps statistics per endpoint, quarantines endpoints that fail repeatedly
//! and probes them again on an exponential backoff.
//!
//! Everything here is sequential: a pool is a plain value, and whoever shares
//! it between tasks puts it behind a lock. The operations come in two forms.
//! The step functions (`begin_request`, `next_attempt`, `record_attempt_*`,
//! `probe_due`, `record_probe_*`) decide and record, and leave the waiting
//! to the caller. `execute_with_url`, `execute` and `check_health` run the
//! same steps around an operation that returns at once.
//!
//! - [`endpoint`]: endpoint descriptors, capability grades, statistics,
//!   backoff.
//! - [`strategies`]: failover, round-robin, latency-based and rate-aware
//!   selection.
//! - [`arrange`]: the order of the endpoints of a pool.
//! - [`pool`]: the pool, the failover loop and the health check.
//! - [`tiered`]: pools by tier, and routing by request priority.
//! - [`ws`]: the endpoints that offer a WebSocket transport.
//! - [`metrics`]: figures for monitoring.
//! - [`presets`]: public endpoints of well-known chains.
//! - [`evaluation`]: the rules by which an endpoint is evaluated.
//! - [`time`], [`stats_map`], [`url_text`]: what is taken on trust from
//!   the clock, from `dashmap` and from `url`.
//!
//! Fractional quantities are integers in thousandths: latency averages in
//! microseconds, rates in thousandths of a percent.

pub mod arrange;
pub mod endpoint;
pub mod error;
pub mod evaluation;
pub mod metrics;
pub mod pool;
pub mod presets;
pub mod stats_map;
pub mod strategies;
pub mod text;
pub mod tiered;
pub mod time;
pub mod url_text;
pub mod ws;

pub use endpoint::{EndpointCapabilities, EndpointGrade, EndpointStats, RpcEndpoint};
pub use error::RpcPoolError;
pub use metrics::RpcPoolMetrics;
pub use pool::{HealthSummary, RpcPool, RpcPoolConfig};
pub use strategies::{
    FailoverStrategy, LatencyBasedStrategy, RateAwareStrategy, RoundRobinStrategy,
    SelectionStrategy,
};
pub use tiered::{
    EndpointTier, RequestPriority, TieredEndpoint, TieredPool, TieredPoolBuilder, TieredPoolConfig,
};
