//! Failure kinds reported by the pool.

use vstd::prelude::*;
use vstd::string::*;

verus! {

/// Errors that can occur during pool operations.
#[derive(Debug)]
pub enum RpcPoolError {
    /// All configured endpoints have failed; carries the last error text.
    AllEndpointsFailed(String),
    /// No endpoints are configured.
    NoEndpointsConfigured,
    /// No healthy endpoints are available.
    NoHealthyEndpoints,
    /// Failed to create a client.
    ClientCreationFailed(String),
    /// Transport error during a call.
    TransportError(String),
    /// Invalid endpoint URL.
    InvalidUrl(String),
    /// Timeout waiting for a response, in milliseconds.
    Timeout(u64),
    /// Pool has been shut down.
    PoolShutdown,
    /// No WebSocket-capable endpoints configured.
    NoWebSocketEndpoints,
    /// WebSocket connection or subscription error.
    WebSocketError(String),
}

impl RpcPoolError {
    /// The fixed text that introduces each kind of error.
    pub open spec fn spec_prefix(self) -> Seq<char> {
        match self {
            RpcPoolError::AllEndpointsFailed(_) => "All RPC endpoints failed: "@,
            RpcPoolError::NoEndpointsConfigured => "No RPC endpoints configured"@,
            RpcPoolError::NoHealthyEndpoints => "No healthy RPC endpoints available"@,
            RpcPoolError::ClientCreationFailed(_) => "Failed to create RPC client: "@,
            RpcPoolError::TransportError(_) => "RPC transport error: "@,
            RpcPoolError::InvalidUrl(_) => "Invalid endpoint URL: "@,
            RpcPoolError::Timeout(_) => "Request timeout after "@,
            RpcPoolError::PoolShutdown => "RPC pool has been shut down"@,
            RpcPoolError::NoWebSocketEndpoints => "No WebSocket-capable endpoints configured"@,
            RpcPoolError::WebSocketError(_) => "WebSocket error: "@,
        }
    }

    /// The text carried by the error, empty where the kind carries none.
    pub open spec fn spec_detail(self) -> Seq<char> {
        match self {
            RpcPoolError::AllEndpointsFailed(s) => s@,
            RpcPoolError::ClientCreationFailed(s) => s@,
            RpcPoolError::TransportError(s) => s@,
            RpcPoolError::InvalidUrl(s) => s@,
            RpcPoolError::WebSocketError(s) => s@,
            RpcPoolError::Timeout(ms) => crate::text::decimal(ms as nat) + "ms"@,
            _ => Seq::empty(),
        }
    }

    /// The human-readable message: prefix followed by the detail.
    pub open spec fn spec_message(self) -> Seq<char> {
        self.spec_prefix() + self.spec_detail()
    }

    /// Render the error as text.
    pub fn message(&self) -> (r: String)
        ensures
            r@ == self.spec_message(),
    {
        match self {
            RpcPoolError::AllEndpointsFailed(s) => String::from_str("All RPC endpoints failed: ").concat(
                s.as_str(),
            ),
            RpcPoolError::NoEndpointsConfigured => String::from_str("No RPC endpoints configured"),
            RpcPoolError::NoHealthyEndpoints => String::from_str(
                "No healthy RPC endpoints available",
            ),
            RpcPoolError::ClientCreationFailed(s) => String::from_str(
                "Failed to create RPC client: ",
            ).concat(s.as_str()),
            RpcPoolError::TransportError(s) => String::from_str("RPC transport error: ").concat(
                s.as_str(),
            ),
            RpcPoolError::InvalidUrl(s) => String::from_str("Invalid endpoint URL: ").concat(
                s.as_str(),
            ),
            RpcPoolError::Timeout(ms) => {
                let digits = crate::text::decimal_string(*ms as u128);
                String::from_str("Request timeout after ").concat(digits.as_str()).concat("ms")
            },
            RpcPoolError::PoolShutdown => String::from_str("RPC pool has been shut down"),
            RpcPoolError::NoWebSocketEndpoints => String::from_str(
                "No WebSocket-capable endpoints configured",
            ),
            RpcPoolError::WebSocketError(s) => String::from_str("WebSocket error: ").concat(
                s.as_str(),
            ),
        }
    }
}

} // verus!
