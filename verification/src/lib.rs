//! Succinct lineage proving for policy-checked state transitions.
//!
//! A `LineageProver` starts from a genesis state, accepts transitions that an
//! origin policy permits, chains each accepted transition into a lineage
//! commitment with an algebraic sponge hash, and finally emits a constant-size
//! proof bound to the final commitment.

mod hash;
mod lineage;
mod merkle;
mod origin;
mod policy;
mod prover;
mod transition;

pub use hash::{bytes_to_field, field_to_bytes, u64_to_digest, PoseidonGadget};
pub use lineage::LineageCommitment;
pub use merkle::MerkleGadget;
pub use origin::Origin;
pub use policy::Policy;
pub use prover::{LineageProof, LineageProver, ProverError};
pub use transition::Transition;
