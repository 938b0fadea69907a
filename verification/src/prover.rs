//! The recursive lineage prover: a state machine that policy-checks each
//! transition, chains it into the lineage commitment, and finally emits a
//! constant-size proof bound to the final commitment.

use vstd::prelude::*;
use crate::hash::{
    digests_equal, h2, h3, u64_digest, u64_to_digest, PoseidonGadget, SpongeContext,
};
use crate::lineage::{genesis_commitment, LineageCommitment};
use crate::origin::Origin;
use crate::policy::{default_pairs, policy_allows, Policy};
use crate::transition::{transition_digest, Transition};
use vstd::slice::slice_to_vec;

verus! {

/// Errors that can occur during proving.
#[derive(Debug, Clone, PartialEq, Eq)]
pub enum ProverError {
    /// The requested transition is not permitted from the current origin and
    /// depth; the prover state is unchanged.
    PolicyViolation { from: Origin, to: Origin },
    /// The supplied previous state does not match the prover's recorded
    /// current state; the prover state is unchanged.
    InvalidPreviousState,
    /// Folding or finalization failed; the instance should be discarded.
    ProofGeneration(String),
    /// A membership witness was requested for a pair absent from the
    /// committed policy. Never reachable through `add_transition`.
    PolicyNotFound,
}

/// The prover's abstract state: everything its contracts speak about.
#[verifier::ext_equal]
pub ghost struct ProverModel {
    /// The genesis state hash the lineage starts from.
    pub genesis: Seq<u8>,
    /// The permitted-pairs table bound to this proving session.
    pub pairs: Seq<(Origin, Origin)>,
    /// Current lineage commitment digest.
    pub commitment: Seq<u8>,
    /// Current lineage depth.
    pub depth: u64,
    /// Origin class of the last accepted transition (Genesis at the start).
    pub origin: Origin,
    /// State hash after the last accepted transition.
    pub state_hash: Seq<u8>,
    /// The accepted transitions, in order.
    pub history: Seq<Transition>,
    /// Whether the prover has been finalized.
    pub finalized: bool,
}

/// The state a prover starts in for a given genesis state and policy table.
pub open spec fn genesis_model(genesis: Seq<u8>, pairs: Seq<(Origin, Origin)>) -> ProverModel {
    ProverModel {
        genesis: genesis,
        pairs: pairs,
        commitment: genesis_commitment(genesis),
        depth: 0,
        origin: Origin::Genesis,
        state_hash: genesis,
        history: Seq::empty(),
        finalized: false,
    }
}

/// Whether a transition is accepted in a given state: the prover is not
/// finalized, the policy permits the origin pair at the current depth, the
/// transition extends the recorded current state, and the depth counter has
/// room.
pub open spec fn step_allowed(m: ProverModel, t: Transition) -> bool {
    &&& !m.finalized
    &&& policy_allows(m.pairs, m.origin, t.origin, m.depth)
    &&& t.prev_state@ == m.state_hash
    &&& m.depth < u64::MAX
}

/// The state after an accepted transition: depth increments, and the new
/// commitment chains the old one with the transition hash and the new depth.
pub open spec fn apply_step(m: ProverModel, t: Transition) -> ProverModel {
    ProverModel {
        genesis: m.genesis,
        pairs: m.pairs,
        commitment: h3(m.commitment, transition_digest(t), u64_digest((m.depth + 1) as u64)),
        depth: (m.depth + 1) as u64,
        origin: t.origin,
        state_hash: t.new_state@,
        history: m.history.push(t),
        finalized: false,
    }
}

/// Feed a sequence of transitions to a prover state, applying each accepted
/// one and leaving the state untouched for each rejected one.
pub open spec fn run(m: ProverModel, ts: Seq<Transition>) -> ProverModel
    decreases ts.len(),
{
    if ts.len() == 0 {
        m
    } else {
        let prev = run(m, ts.drop_last());
        if step_allowed(prev, ts.last()) {
            apply_step(prev, ts.last())
        } else {
            prev
        }
    }
}

/// A model with its finalized flag cleared.
pub open spec fn unfinalized(m: ProverModel) -> ProverModel {
    ProverModel { finalized: false, ..m }
}

/// The prover's internal consistency: its state is exactly the result of
/// feeding its recorded history to its genesis state. Constructors establish
/// it and every method preserves it.
pub open spec fn consistent(m: ProverModel) -> bool {
    unfinalized(m) == run(genesis_model(m.genesis, m.pairs), m.history)
}

/// Feeding one more transition extends the run by one conditional step.
proof fn lemma_run_snoc(m: ProverModel, h: Seq<Transition>, t: Transition)
    ensures
        run(m, h.push(t)) == ({
            let prev = run(m, h);
            if step_allowed(prev, t) {
                apply_step(prev, t)
            } else {
                prev
            }
        }),
{
    assert(h.push(t).drop_last() =~= h);
    assert(h.push(t).last() == t);
}

/// Depth counts history: a run that records every transition it was fed has
/// accepted each of them, and its depth advanced in lockstep with its
/// history.
proof fn lemma_run_depth(m: ProverModel, ts: Seq<Transition>)
    requires
        m.depth == m.history.len(),
    ensures
        run(m, ts).depth == run(m, ts).history.len(),
    decreases ts.len(),
{
    if ts.len() > 0 {
        lemma_run_depth(m, ts.drop_last());
    }
}

/// Depth monotonicity: a consistent prover's depth always equals the number
/// of transitions it has accepted, so after `n` successful additions from
/// genesis the depth is exactly `n`.
pub proof fn lemma_depth_counts_history(m: ProverModel)
    requires
        consistent(m),
    ensures
        m.depth == m.history.len(),
{
    lemma_run_depth(genesis_model(m.genesis, m.pairs), m.history);
}

/// Genesis protection at the prover: in any state of positive depth, a
/// transition targeting Genesis is never accepted, whatever the source
/// origin and whatever the policy table holds.
pub proof fn lemma_genesis_never_accepted(m: ProverModel, t: Transition)
    requires
        m.depth > 0,
        t.origin == Origin::Genesis,
    ensures
        !step_allowed(m, t),
{
    crate::policy::lemma_genesis_protected(m.pairs, m.origin, m.depth);
}

/// Determinism: two provers built from the same genesis state and policy and
/// fed the identical ordered transition sequence hold bit-identical lineage
/// commitments.
pub proof fn lemma_deterministic(m1: ProverModel, m2: ProverModel)
    requires
        consistent(m1),
        consistent(m2),
        m1.genesis == m2.genesis,
        m1.pairs == m2.pairs,
        m1.history == m2.history,
    ensures
        m1.commitment == m2.commitment,
        m1.depth == m2.depth,
        m1.origin == m2.origin,
{
    assert(unfinalized(m1) == unfinalized(m2));
}

/// Recursive lineage prover. Owns the current lineage commitment, the current
/// origin, the policy, and the accepted history; transitions are folded
/// strictly in submission order.
pub struct LineageProver {
    /// Current lineage commitment.
    current_lineage: LineageCommitment,
    /// Current origin class.
    current_origin: Origin,
    /// The policy bound to this proving session.
    policy: Policy,
    /// Accumulated transitions.
    transitions: Vec<Transition>,
    /// State hash after the last accepted transition.
    current_state: [u8; 32],
    /// The genesis state this lineage started from.
    genesis_state: [u8; 32],
    /// Where the prover stands in its lifecycle.
    phase: ProverPhase,
    /// The sponge parameters, generated once per prover.
    sponge: SpongeContext,
}

/// The prover lifecycle: freshly constructed, accumulating folds, or closed.
enum ProverPhase {
    Initialized,
    Accumulating,
    Finalized,
}

impl View for LineageProver {
    type V = ProverModel;

    closed spec fn view(&self) -> ProverModel {
        ProverModel {
            genesis: self.genesis_state@,
            pairs: self.policy.pairs(),
            commitment: self.current_lineage.commitment@,
            depth: self.current_lineage.depth,
            origin: self.current_origin,
            state_hash: self.current_state@,
            history: self.transitions@,
            finalized: self.phase is Finalized,
        }
    }
}

impl LineageProver {
    /// Create a new prover with the default policy, starting from a genesis
    /// state.
    pub fn new(genesis_state: [u8; 32]) -> (r: Result<Self, ProverError>)
        ensures
            (r matches Ok(p) && p@ == genesis_model(genesis_state@, default_pairs())),
            (r matches Ok(p) ==> consistent(p@)),
    {
        let prover = LineageProver {
            current_lineage: LineageCommitment::genesis(genesis_state),
            current_origin: Origin::Genesis,
            policy: Policy::default_policy(),
            transitions: Vec::new(),
            current_state: genesis_state,
            genesis_state: genesis_state,
            phase: ProverPhase::Initialized,
            sponge: SpongeContext::new(),
        };
        proof {
            assert(prover@ =~= genesis_model(genesis_state@, default_pairs()));
            assert(unfinalized(prover@) =~= run(
                genesis_model(prover@.genesis, prover@.pairs),
                prover@.history,
            ));
        }
        Ok(prover)
    }

    /// Policy-check a transition against the current state and, if accepted,
    /// chain it into the lineage. Either fully applied or fully rejected:
    /// on every error the prover is left exactly as it was.
    pub fn add_transition(&mut self, transition: Transition) -> (r: Result<(), ProverError>)
        requires
            consistent(old(self)@),
            old(self)@.depth < u64::MAX,
        ensures
            consistent(final(self)@),
            match r {
                Ok(()) => step_allowed(old(self)@, transition) && final(self)@ == apply_step(
                    old(self)@,
                    transition,
                ),
                Err(e) => {
                    &&& *final(self) == *old(self)
                    &&& !step_allowed(old(self)@, transition)
                    &&& (e is ProofGeneration <==> old(self)@.finalized)
                    &&& (e is PolicyViolation <==> !old(self)@.finalized && !policy_allows(
                        old(self)@.pairs,
                        old(self)@.origin,
                        transition.origin,
                        old(self)@.depth,
                    ))
                    &&& (e matches ProverError::PolicyViolation { from, to } ==> from == old(
                        self,
                    )@.origin && to == transition.origin)
                    &&& (e is InvalidPreviousState <==> !old(self)@.finalized && policy_allows(
                        old(self)@.pairs,
                        old(self)@.origin,
                        transition.origin,
                        old(self)@.depth,
                    ) && transition.prev_state@ != old(self)@.state_hash)
                },
            },
    {
        if let ProverPhase::Finalized = self.phase {
            return Err(ProverError::ProofGeneration("prover is finalized".to_owned()));
        }
        if !self.policy.is_allowed(
            self.current_origin,
            transition.origin,
            self.current_lineage.depth,
        ) {
            return Err(
                ProverError::PolicyViolation { from: self.current_origin, to: transition.origin },
            );
        }
        if !digests_equal(&transition.prev_state, &self.current_state) {
            return Err(ProverError::InvalidPreviousState);
        }
        let ghost pre = self@;
        let transition_hash = self.sponge.hash4(
            &transition.prev_state,
            &transition.new_state,
            &u64_to_digest(transition.origin.as_u8() as u64),
            &u64_to_digest(transition.timestamp),
        );
        proof {
            assert(transition_hash@ == transition_digest(transition));
        }
        let new_depth = self.current_lineage.depth + 1;
        let new_commitment = self.sponge.hash3(
            &self.current_lineage.commitment,
            &transition_hash,
            &u64_to_digest(new_depth),
        );
        self.current_lineage = LineageCommitment::new(new_commitment, new_depth);
        self.current_origin = transition.origin;
        self.current_state = transition.new_state;
        self.transitions.push(transition);
        self.phase = ProverPhase::Accumulating;
        proof {
            assert(self@ =~= apply_step(pre, transition));
            lemma_run_snoc(genesis_model(pre.genesis, pre.pairs), pre.history, transition);
            assert(unfinalized(self@) =~= self@);
        }
        Ok(())
    }

    /// Get the current lineage commitment.
    pub fn current_lineage(&self) -> (r: &LineageCommitment)
        ensures
            r.commitment@ == self@.commitment,
            r.depth == self@.depth,
    {
        &self.current_lineage
    }

    /// Get the number of accepted transitions.
    pub fn num_transitions(&self) -> (r: usize)
        ensures
            r == self@.history.len(),
    {
        self.transitions.len()
    }

    /// Close the lineage and emit the proof bound to the final commitment and
    /// depth. Idempotent: calling again returns an equivalent proof; only
    /// further `add_transition` calls are rejected.
    pub fn finalize(&mut self) -> (r: Result<LineageProof, ProverError>)
        requires
            consistent(old(self)@),
        ensures
            consistent(final(self)@),
            final(self)@ == (ProverModel { finalized: true, ..old(self)@ }),
            (r matches Ok(p) && p.lineage_commitment.commitment@ == old(self)@.commitment
                && p.lineage_commitment.depth == old(self)@.depth && proof_verifies(p)
                && p.proof_data@.len() == 32),
    {
        let ghost pre = self@;
        self.phase = ProverPhase::Finalized;
        let binding = self.sponge.hash2(
            &self.current_lineage.commitment,
            &u64_to_digest(self.current_lineage.depth),
        );
        let proof = LineageProof {
            lineage_commitment: LineageCommitment::new(
                self.current_lineage.commitment,
                self.current_lineage.depth,
            ),
            proof_data: slice_to_vec(binding.as_slice()),
        };
        proof {
            assert(self@ =~= ProverModel { finalized: true, ..pre });
            assert(unfinalized(self@) =~= unfinalized(pre));
        }
        Ok(proof)
    }
}

/// The digest that binds a proof to its declared public output.
pub open spec fn proof_binding(commitment: Seq<u8>, depth: u64) -> Seq<u8> {
    h2(commitment, u64_digest(depth))
}

/// What `LineageProof::verify` checks: the proof bytes are exactly the
/// binding digest of the declared final commitment and depth.
pub open spec fn proof_verifies(p: LineageProof) -> bool {
    p.proof_data@ == proof_binding(p.lineage_commitment.commitment@, p.lineage_commitment.depth)
}

/// A lineage proof: the declared final commitment plus the opaque proof
/// bytes, sized independently of the chain length.
#[derive(Clone, Debug)]
pub struct LineageProof {
    /// Final lineage commitment.
    pub lineage_commitment: LineageCommitment,
    /// Proof bytes binding the proof to its public output.
    pub proof_data: Vec<u8>,
}

impl LineageProof {
    /// Check the proof against its declared public output: recompute the
    /// binding digest and compare. Pure; false on any mismatch.
    pub fn verify(&self) -> (r: bool)
        ensures
            r == proof_verifies(*self),
    {
        let binding = PoseidonGadget::hash2(
            &self.lineage_commitment.commitment,
            &u64_to_digest(self.lineage_commitment.depth),
        );
        if self.proof_data.len() != 32 {
            return false;
        }
        let mut i: usize = 0;
        while i < 32
            invariant
                0 <= i <= 32,
                self.proof_data@.len() == 32,
                binding@ == proof_binding(
                    self.lineage_commitment.commitment@,
                    self.lineage_commitment.depth,
                ),
                forall|j: int| 0 <= j < i ==> self.proof_data@[j] == binding@[j],
            decreases 32 - i,
        {
            if self.proof_data[i] != binding[i] {
                return false;
            }
            i = i + 1;
        }
        proof {
            assert(self.proof_data@ =~= binding@);
        }
        true
    }
}

/// Tampering is detected: if a proof checks out, any proof for the same
/// declared output with different bytes does not.
pub proof fn lemma_corruption_detected(p: LineageProof, q: LineageProof)
    requires
        proof_verifies(p),
        q.lineage_commitment == p.lineage_commitment,
        q.proof_data@ != p.proof_data@,
    ensures
        !proof_verifies(q),
{
}

} // verus!
