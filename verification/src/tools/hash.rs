//! The hash that binds a player to a choice.

use vstd::prelude::*;

verus! {

/// The SHA-256 digest of `data`.
pub uninterp spec fn sha256(data: Seq<u8>) -> Seq<u8>;

/// Wraps `anchor_lang::solana_program::hash::hashv`, called on the one slice
/// `data`, and `Hash::to_bytes` on what it returns. `hashv` feeds its slices
/// to SHA-256 in order and returns the digest; the contract gives that
/// digest its name and says nothing more of it.
#[verifier::external_body]
pub(crate) fn hashv(data: &[u8; 33]) -> (digest: [u8; 32])
    ensures
        digest@ == sha256(data@),
{
    anchor_lang::solana_program::hash::hashv(&[&data[..]]).to_bytes()
}

} // verus!
