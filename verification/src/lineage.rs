//! The lineage commitment: the public, succinct summary of a transition
//! history.

use vstd::prelude::*;
use crate::hash::{h3, hex_encoding, u64_digest, u64_to_digest, PoseidonGadget};

verus! {

/// Succinct summary of the entire transition history up to the current point:
/// a 32-byte digest together with the number of transitions folded so far.
#[derive(Clone, Debug, PartialEq, Eq)]
pub struct LineageCommitment {
    /// The commitment digest (sponge hash).
    pub commitment: [u8; 32],
    /// Current lineage depth.
    pub depth: u64,
}

/// The commitment a lineage starts from: the genesis state hash absorbed into
/// the sponge with two zero words.
pub open spec fn genesis_commitment(genesis_state: Seq<u8>) -> Seq<u8> {
    h3(genesis_state, u64_digest(0), u64_digest(0))
}

impl LineageCommitment {
    /// Create a lineage commitment from its parts.
    pub fn new(commitment: [u8; 32], depth: u64) -> (r: Self)
        ensures
            r.commitment == commitment,
            r.depth == depth,
    {
        Self { commitment, depth }
    }

    /// Create the genesis lineage commitment: depth 0, commitment bound to the
    /// genesis state hash.
    pub fn genesis(genesis_state_hash: [u8; 32]) -> (r: Self)
        ensures
            r.commitment@ == genesis_commitment(genesis_state_hash@),
            r.depth == 0,
    {
        let zero = u64_to_digest(0);
        Self { commitment: PoseidonGadget::hash3(&genesis_state_hash, &zero, &zero), depth: 0 }
    }

    /// The commitment digest as a lowercase hex string.
    ///
    /// Relies on hex::encode: each byte becomes two lowercase hex digits,
    /// high nibble first.
    #[verifier::external_body]
    pub fn to_hex(&self) -> (r: String)
        ensures
            r@ == hex_encoding(self.commitment@),
    {
        hex::encode(&self.commitment)
    }
}

} // verus!
