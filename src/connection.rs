//! Connection settings of both backends, and the decisions that turn the
//! outcome of a connection attempt into a node's identity record or an error.
use vstd::prelude::*;
use crate::errors::LightningError;
use crate::features::{be_bits, index_set, is_covering_len, FeatureVector};
use crate::identity::{node_info_from_key, NodeId, NodeInfo};
use crate::pubkey::{hex_pubkey_of, parse_hex_pubkey, parse_pubkey_slice, slice_pubkey_of};

verus! {

/// Where and how to reach an LND node: its gRPC address, the path of its
/// macaroon and the path of its TLS certificate.
#[derive(Clone, Debug)]
pub struct LndConnection {
    pub id: NodeId,
    pub address: String,
    pub macaroon: String,
    pub cert: String,
}

/// Where and how to reach a CLN node over mutual TLS: its gRPC address and
/// the paths of the CA certificate, the client certificate and the client key.
#[derive(Clone, Debug)]
pub struct ClnConnection {
    pub id: NodeId,
    pub address: String,
    pub ca_cert: String,
    pub client_cert: String,
    pub client_key: String,
}

/// A request to connect to a node of either backend.
#[derive(Clone, Debug)]
pub enum ConnectionRequest {
    Lnd(LndConnection),
    Cln(ClnConnection),
}

/// Why a node could not be asked for its identity.
#[derive(Clone, Debug)]
pub enum ConnectFailure {
    /// Credentials, TLS or transport failed before any RPC succeeded.
    Transport(String),
    /// The "get node info" RPC failed.
    GetInfo(String),
}

/// What an LND node answered to "get node info": its hex-encoded key, the
/// indices of the features it supports, and its alias.
#[derive(Clone, Debug)]
pub struct LndGetInfo {
    pub identity_pubkey: String,
    pub features: Vec<u32>,
    pub alias: String,
}

/// What a CLN node answered to "get node info": its key as raw bytes, its
/// packed big-endian feature buffer if any, and its alias if any.
#[derive(Clone, Debug)]
pub struct ClnGetInfo {
    pub id: Vec<u8>,
    pub our_features: Option<Vec<u8>>,
    pub alias: Option<String>,
}

/// The alias a CLN node reported, empty where it reported none.
pub open spec fn reported_alias(alias: Option<String>) -> Seq<char> {
    match alias {
        Some(a) => a@,
        None => Seq::empty(),
    }
}

/// The little-endian feature buffer of a CLN reply.
pub open spec fn cln_feature_flags(our_features: Option<Vec<u8>>) -> Seq<u8> {
    match our_features {
        Some(b) => b@.reverse(),
        None => Seq::empty(),
    }
}

/// The identity record built from an LND reply whose key parsed to `key`.
pub open spec fn lnd_info(id: NodeId, key: Seq<u8>, features: Seq<u32>, alias: Seq<char>, info: NodeInfo) -> bool {
    &&& info.pubkey@ == key
    &&& info.features.bits() == index_set(features)
    &&& is_covering_len(features, info.features@.len())
    &&& info.alias@ == id.resolved_alias(alias)
}

/// The identity record built from a CLN reply whose key parsed to `key`.
pub open spec fn cln_info(id: NodeId, key: Seq<u8>, our_features: Option<Vec<u8>>, alias: Option<String>, info: NodeInfo) -> bool {
    &&& info.pubkey@ == key
    &&& info.features@ == cln_feature_flags(our_features)
    &&& info.alias@ == id.resolved_alias(reported_alias(alias))
}

/// Turns an LND "get node info" reply into the node's identity record: the
/// key must parse (else `GetInfoError`) and be the expected one (else
/// `IdentityMismatch`); the features come from the index list.
pub fn lnd_node_info(id: &NodeId, identity_pubkey: &str, features: &Vec<u32>, alias: String) -> (r:
    Result<NodeInfo, LightningError>)
    ensures
        match hex_pubkey_of(identity_pubkey@) {
            None => r matches Err(LightningError::GetInfoError(_)),
            Some(k) => if k == id.pubkey@ {
                r matches Ok(info) && lnd_info(*id, k, features@, alias@, info)
            } else {
                r == Err::<NodeInfo, LightningError>(LightningError::IdentityMismatch)
            },
        },
{
    let pubkey = match parse_hex_pubkey(identity_pubkey) {
        Ok(k) => k,
        Err(e) => {
            return Err(LightningError::GetInfoError(e));
        },
    };
    let fv = FeatureVector::from_index_set(features);
    node_info_from_key(id, pubkey, fv, alias)
}

/// Turns a CLN "get node info" reply into the node's identity record: the
/// raw key must parse (else `GetInfoError`) and be the expected one (else
/// `IdentityMismatch`); the features come from the big-endian buffer, or
/// are empty where the node sent none.
pub fn cln_node_info(id: &NodeId, raw_id: &Vec<u8>, our_features: Option<Vec<u8>>, alias: Option<String>) -> (r:
    Result<NodeInfo, LightningError>)
    ensures
        match slice_pubkey_of(raw_id@) {
            None => r matches Err(LightningError::GetInfoError(_)),
            Some(k) => if k == id.pubkey@ {
                r matches Ok(info) && cln_info(*id, k, our_features, alias, info)
            } else {
                r == Err::<NodeInfo, LightningError>(LightningError::IdentityMismatch)
            },
        },
        r matches Ok(info) ==> our_features matches Some(b) ==> info.features.bits() == be_bits(b@),
{
    let pubkey = match parse_pubkey_slice(raw_id.as_slice()) {
        Ok(k) => k,
        Err(e) => {
            return Err(LightningError::GetInfoError(e));
        },
    };
    let alias = match alias {
        Some(a) => a,
        None => String::new(),
    };
    let fv = match our_features {
        Some(b) => FeatureVector::from_be_bytes(b),
        None => FeatureVector::empty(),
    };
    node_info_from_key(id, pubkey, fv, alias)
}

/// The error of a connection attempt that did not reach "get node info".
pub open spec fn failure_error(f: ConnectFailure) -> LightningError {
    match f {
        ConnectFailure::Transport(m) => LightningError::ConnectionError(m),
        ConnectFailure::GetInfo(m) => LightningError::GetInfoError(m),
    }
}

fn failure_to_error(f: ConnectFailure) -> (r: LightningError)
    ensures
        r == failure_error(f),
{
    match f {
        ConnectFailure::Transport(m) => LightningError::ConnectionError(m),
        ConnectFailure::GetInfo(m) => LightningError::GetInfoError(m),
    }
}

impl LndConnection {
    /// The outcome of connecting to this node: a transport failure is a
    /// `ConnectionError` and an RPC failure a `GetInfoError`, with no
    /// identity record; otherwise the reply is checked against `self.id`.
    pub fn finish_connect(&self, reached: Result<LndGetInfo, ConnectFailure>) -> (r: Result<
        NodeInfo,
        LightningError,
    >)
        ensures
            match reached {
                Err(f) => r == Err::<NodeInfo, LightningError>(failure_error(f)),
                Ok(g) => match hex_pubkey_of(g.identity_pubkey@) {
                    None => r matches Err(LightningError::GetInfoError(_)),
                    Some(k) => if k == self.id.pubkey@ {
                        r matches Ok(info) && lnd_info(self.id, k, g.features@, g.alias@, info)
                    } else {
                        r == Err::<NodeInfo, LightningError>(LightningError::IdentityMismatch)
                    },
                },
            },
    {
        match reached {
            Err(f) => Err(failure_to_error(f)),
            Ok(g) => lnd_node_info(&self.id, g.identity_pubkey.as_str(), &g.features, g.alias),
        }
    }
}

impl ClnConnection {
    /// The outcome of connecting to this node: a transport failure is a
    /// `ConnectionError` and an RPC failure a `GetInfoError`, with no
    /// identity record; otherwise the reply is checked against `self.id`.
    pub fn finish_connect(&self, reached: Result<ClnGetInfo, ConnectFailure>) -> (r: Result<
        NodeInfo,
        LightningError,
    >)
        ensures
            match reached {
                Err(f) => r == Err::<NodeInfo, LightningError>(failure_error(f)),
                Ok(g) => match slice_pubkey_of(g.id@) {
                    None => r matches Err(LightningError::GetInfoError(_)),
                    Some(k) => if k == self.id.pubkey@ {
                        r matches Ok(info) && cln_info(self.id, k, g.our_features, g.alias, info)
                    } else {
                        r == Err::<NodeInfo, LightningError>(LightningError::IdentityMismatch)
                    },
                },
            },
    {
        match reached {
            Err(f) => Err(failure_to_error(f)),
            Ok(g) => cln_node_info(&self.id, &g.id, g.our_features, g.alias),
        }
    }
}

} // verus!
