//! Public key parsing, done by secp256k1 through lightning's re-export.
use vstd::prelude::*;

verus! {

/// The 33-byte compressed key that secp256k1 reads from a hex string, if
/// the string encodes a valid public key.
pub uninterp spec fn hex_pubkey_of(s: Seq<char>) -> Option<Seq<u8>>;

/// The 33-byte compressed key that secp256k1 reads from a byte buffer, if
/// the buffer encodes a valid public key.
pub uninterp spec fn slice_pubkey_of(b: Seq<u8>) -> Option<Seq<u8>>;

/// Relies on secp256k1's `PublicKey::from_str` (re-exported by lightning)
/// to parse a hex-encoded public key, and on `PublicKey::serialize` for its
/// compressed form.
#[verifier::external_body]
pub(crate) fn parse_hex_pubkey(s: &str) -> (r: Result<[u8; 33], String>)
    ensures
        match r {
            Ok(k) => hex_pubkey_of(s@) == Some(k@),
            Err(_) => hex_pubkey_of(s@) is None,
        },
{
    match <lightning::bitcoin::secp256k1::PublicKey as std::str::FromStr>::from_str(s) {
        Ok(k) => Ok(k.serialize()),
        Err(e) => Err(e.to_string()),
    }
}

/// Relies on secp256k1's `PublicKey::from_slice` (re-exported by lightning)
/// to parse a public key from its byte encoding, and on
/// `PublicKey::serialize` for its compressed form.
#[verifier::external_body]
pub(crate) fn parse_pubkey_slice(b: &[u8]) -> (r: Result<[u8; 33], String>)
    ensures
        match r {
            Ok(k) => slice_pubkey_of(b@) == Some(k@),
            Err(_) => slice_pubkey_of(b@) is None,
        },
{
    match lightning::bitcoin::secp256k1::PublicKey::from_slice(b) {
        Ok(k) => Ok(k.serialize()),
        Err(e) => Err(e.to_string()),
    }
}

} // verus!
