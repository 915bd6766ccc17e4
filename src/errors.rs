//! Errors of node operations.
use vstd::prelude::*;

verus! {

/// Errors of Lightning Network node operations.
#[derive(Debug, Clone, PartialEq, Eq)]
pub enum LightningError {
    /// Error that occurred while connecting to a Lightning node.
    ConnectionError(String),
    /// Error that occurred while retrieving node information.
    GetInfoError(String),
    /// The node reached does not carry the expected public key.
    IdentityMismatch,
    /// Error that occurred while sending a payment.
    SendPaymentError(String),
    /// Error that occurred while tracking a payment.
    TrackPaymentError(String),
    /// Error that occurred when a payment hash is invalid.
    InvalidPaymentHash,
    /// Error that occurred while retrieving information about a specific node.
    GetNodeInfoError(String),
    /// Error that occurred during configuration validation.
    ValidationError(String),
    /// Error that represents a permanent failure condition.
    PermanentError(String),
    /// Error that occurred while listing channels.
    ListChannelsError(String),
    /// Error that occurred while getting graph.
    GetGraphError(String),
}

} // verus!
