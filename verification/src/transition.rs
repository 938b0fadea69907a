//! A single state change fed to the prover.

use vstd::prelude::*;
use crate::hash::{h4, u64_digest, u64_to_digest, PoseidonGadget};
use crate::origin::{origin_code, Origin};

verus! {

/// The digest a transition contributes to the chain: the four-input sponge
/// hash of the two state hashes, the destination origin's field encoding and
/// the timestamp.
pub open spec fn transition_digest(t: Transition) -> Seq<u8> {
    h4(
        t.prev_state@,
        t.new_state@,
        u64_digest(origin_code(t.origin) as u64),
        u64_digest(t.timestamp),
    )
}

/// One state change: the previous and new state hashes, the actor class that
/// caused it, and its timestamp. Created by the caller per real-world event
/// and consumed once by the prover.
#[derive(Clone, Debug)]
pub struct Transition {
    /// Hash of the previous state.
    pub prev_state: [u8; 32],
    /// Hash of the new state.
    pub new_state: [u8; 32],
    /// Origin class of this transition.
    pub origin: Origin,
    /// Timestamp of the transition.
    pub timestamp: u64,
}

impl Transition {
    /// Create a new transition.
    pub fn new(prev_state: [u8; 32], new_state: [u8; 32], origin: Origin, timestamp: u64) -> (r:
        Self)
        ensures
            r.prev_state == prev_state,
            r.new_state == new_state,
            r.origin == origin,
            r.timestamp == timestamp,
    {
        Self { prev_state, new_state, origin, timestamp }
    }

    /// The transition hash folded into the lineage commitment: the four-input
    /// sponge hash of both state hashes, the origin's field encoding and the
    /// timestamp.
    pub fn hash(&self) -> (r: [u8; 32])
        ensures
            r@ == transition_digest(*self),
    {
        PoseidonGadget::hash4(
            &self.prev_state,
            &self.new_state,
            &u64_to_digest(self.origin.as_u8() as u64),
            &u64_to_digest(self.timestamp),
        )
    }
}

} // verus!
