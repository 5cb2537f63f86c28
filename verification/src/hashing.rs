//! The content hash that staged bytes are checked against.

use vstd::prelude::*;

verus! {

/// Number of bytes in a digest.
pub const HASH_BYTES: usize = 32;

/// The SHA-256 digest of a byte string.
pub uninterp spec fn sha256(data: Seq<u8>) -> Seq<u8>;

/// Calls `solana_sdk::hash::hash`, which feeds the bytes to a SHA-256 hasher
/// and returns its 32-byte result. Trusted: the digest is a function of the
/// bytes alone, the one that `sha256` names.
#[verifier::external_body]
pub(crate) fn digest(data: &[u8]) -> (r: [u8; 32])
    ensures
        r@ == sha256(data@),
{
    solana_sdk::hash::hash(data).to_bytes()
}

} // verus!
