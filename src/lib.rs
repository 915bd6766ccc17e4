//! Node adapter layer for observing Lightning Network nodes.
//!
//! The library decodes the feature-bit encodings of the two supported
//! backends into one bitset, checks that a reached node carries the expected
//! identity, turns the replies of the identity handshake into a `NodeInfo`,
//! and reconciles the split channel listings of the CLN backend.
pub mod channels;
pub mod connection;
pub mod errors;
pub mod features;
pub mod identity;
pub mod pubkey;

pub use channels::{
    channel_filter, channel_summaries, listing_result, lnd_listing_result, own_channels, ChannelFilter, ChannelSummary,
};
pub use connection::{
    cln_node_info, lnd_node_info, ClnConnection, ClnGetInfo, ConnectFailure, ConnectionRequest,
    LndConnection, LndGetInfo,
};
pub use errors::LightningError;
pub use features::{lemma_encodings_agree, FeatureVector};
pub use identity::{node_info_from_key, same_key, NodeId, NodeInfo};
