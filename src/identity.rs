//! Expected node identities, identity records of reached nodes, and the
//! check that a reached node is the expected one.
use vstd::prelude::*;
use crate::errors::LightningError;
use crate::features::FeatureVector;
use crate::pubkey::{hex_pubkey_of, parse_hex_pubkey};

verus! {

/// Whether two compressed keys are the same, byte for byte.
pub fn same_key(a: &[u8; 33], b: &[u8; 33]) -> (r: bool)
    ensures
        r == (a@ == b@),
{
    let mut i: usize = 0;
    while i < 33
        invariant
            i <= 33,
            a@.len() == 33,
            b@.len() == 33,
            forall|j: int| 0 <= j < i ==> a@[j] == b@[j],
        decreases 33 - i,
    {
        if a[i] != b[i] {
            return false;
        }
        i = i + 1;
    }
    proof {
        assert(a@ =~= b@);
    }
    true
}

/// The identity an operator expects of a node: its compressed public key
/// and, optionally, a display alias that takes precedence over the one the
/// node reports.
#[derive(Clone, Debug)]
pub struct NodeId {
    pub pubkey: [u8; 33],
    pub alias: Option<String>,
}

/// The identity record of a node that was reached and checked.
#[derive(Clone, Debug)]
pub struct NodeInfo {
    pub pubkey: [u8; 33],
    pub features: FeatureVector,
    pub alias: String,
}

impl NodeId {
    /// The alias the operator pinned: present and not empty.
    pub open spec fn pinned_alias(&self) -> Option<Seq<char>> {
        match self.alias {
            Some(a) => if a@.len() > 0 {
                Some(a@)
            } else {
                None
            },
            None => None,
        }
    }

    /// The alias to show for a node that reported `reported`.
    pub open spec fn resolved_alias(&self, reported: Seq<char>) -> Seq<char> {
        match self.pinned_alias() {
            Some(a) => a,
            None => reported,
        }
    }

    /// Builds an expected identity from a hex-encoded public key.
    pub fn parse(pubkey_hex: &str, alias: Option<String>) -> (r: Result<NodeId, LightningError>)
        ensures
            match hex_pubkey_of(pubkey_hex@) {
                Some(k) => r matches Ok(id) && id.pubkey@ == k && id.alias == alias,
                None => r matches Err(LightningError::ValidationError(_)),
            },
    {
        match parse_hex_pubkey(pubkey_hex) {
            Ok(pubkey) => Ok(NodeId { pubkey, alias }),
            Err(e) => Err(LightningError::ValidationError(e)),
        }
    }

    /// Checks that a reached node reported the expected key; on success the
    /// alias becomes the pinned one where there is one.
    pub fn validate(&self, pubkey: &[u8; 33], alias: &mut String) -> (r: Result<
        (),
        LightningError,
    >)
        ensures
            r is Ok <==> pubkey@ == self.pubkey@,
            (exists|j: int| 0 <= j < 33 && #[trigger] pubkey@[j] != self.pubkey@[j]) ==> r is Err,
            r is Ok ==> final(alias)@ == self.resolved_alias(old(alias)@),
            r is Err ==> r == Err::<(), LightningError>(LightningError::IdentityMismatch),
            r is Err ==> final(alias)@ == old(alias)@,
    {
        if !same_key(pubkey, &self.pubkey) {
            return Err(LightningError::IdentityMismatch);
        }
        match &self.alias {
            Some(a) => {
                if !a.as_str().is_empty() {
                    *alias = a.clone();
                }
            },
            None => {},
        }
        Ok(())
    }
}

/// The identity record of a node that reported `pubkey`, `features` and
/// `alias`, or `IdentityMismatch` when the key is not the expected one.
pub fn node_info_from_key(id: &NodeId, pubkey: [u8; 33], features: FeatureVector, alias: String) -> (r:
    Result<NodeInfo, LightningError>)
    ensures
        pubkey@ != id.pubkey@ ==> r == Err::<NodeInfo, LightningError>(
            LightningError::IdentityMismatch,
        ),
        pubkey@ == id.pubkey@ ==> (r matches Ok(info) && info.pubkey == pubkey && info.features
            == features && info.alias@ == id.resolved_alias(alias@)),
{
    let mut alias = alias;
    match id.validate(&pubkey, &mut alias) {
        Ok(()) => Ok(NodeInfo { pubkey, features, alias }),
        Err(e) => Err(e),
    }
}

} // verus!
