use zk_origin_prover::{LineageProver, Origin, ProverError, Transition};

#[test]
fn test_valid_transitions() {
    let mut prover = LineageProver::new([0u8; 32]).unwrap();

    // Genesis -> User
    prover
        .add_transition(Transition::new([0u8; 32], [1u8; 32], Origin::User, 1000))
        .unwrap();

    // User -> User
    prover
        .add_transition(Transition::new([1u8; 32], [2u8; 32], Origin::User, 2000))
        .unwrap();

    assert_eq!(prover.num_transitions(), 2);
    assert_eq!(prover.current_lineage().depth, 2);
}

#[test]
fn test_policy_violation() {
    let mut prover = LineageProver::new([0u8; 32]).unwrap();

    // Genesis -> User
    prover
        .add_transition(Transition::new([0u8; 32], [1u8; 32], Origin::User, 1000))
        .unwrap();

    // User -> Admin (should fail)
    let result = prover.add_transition(Transition::new([1u8; 32], [2u8; 32], Origin::Admin, 2000));

    assert!(matches!(result, Err(ProverError::PolicyViolation { .. })));
}

#[test]
fn test_finalize() {
    let mut prover = LineageProver::new([0u8; 32]).unwrap();

    prover
        .add_transition(Transition::new([0u8; 32], [1u8; 32], Origin::User, 1000))
        .unwrap();

    let proof = prover.finalize().unwrap();
    assert!(proof.verify());
}

#[test]
fn test_stale_previous_state_rejected() {
    let mut prover = LineageProver::new([0u8; 32]).unwrap();

    // The supplied previous state does not match the recorded current state.
    let result = prover.add_transition(Transition::new([9u8; 32], [1u8; 32], Origin::User, 1000));

    assert!(matches!(result, Err(ProverError::InvalidPreviousState)));
    assert_eq!(prover.current_lineage().depth, 0);
    assert_eq!(prover.num_transitions(), 0);
}

#[test]
fn test_add_after_finalize_rejected() {
    let mut prover = LineageProver::new([0u8; 32]).unwrap();
    prover
        .add_transition(Transition::new([0u8; 32], [1u8; 32], Origin::User, 1000))
        .unwrap();
    prover.finalize().unwrap();

    let result = prover.add_transition(Transition::new([1u8; 32], [2u8; 32], Origin::User, 2000));
    assert!(matches!(result, Err(ProverError::ProofGeneration(_))));
    assert_eq!(prover.current_lineage().depth, 1);
}

#[test]
fn test_finalize_idempotent() {
    let mut prover = LineageProver::new([0u8; 32]).unwrap();
    prover
        .add_transition(Transition::new([0u8; 32], [1u8; 32], Origin::User, 1000))
        .unwrap();

    let first = prover.finalize().unwrap();
    let second = prover.finalize().unwrap();
    assert_eq!(first.lineage_commitment, second.lineage_commitment);
    assert_eq!(first.proof_data, second.proof_data);
    assert!(second.verify());
}

// A failed call leaves the observable state exactly as it was.
#[test]
fn test_rejection_leaves_state_unchanged() {
    let mut prover = LineageProver::new([0u8; 32]).unwrap();
    prover
        .add_transition(Transition::new([0u8; 32], [1u8; 32], Origin::User, 1000))
        .unwrap();
    let commitment_before = prover.current_lineage().clone();

    let result = prover.add_transition(Transition::new([1u8; 32], [2u8; 32], Origin::Bridge, 2000));
    assert!(matches!(result, Err(ProverError::PolicyViolation { .. })));
    assert_eq!(prover.current_lineage(), &commitment_before);
    assert_eq!(prover.num_transitions(), 1);
}

// Depth monotonicity: after n successful additions the depth is exactly n.
#[test]
fn test_depth_counts_successes() {
    let mut prover = LineageProver::new([0u8; 32]).unwrap();
    let mut prev_state = [0u8; 32];
    for i in 0..10u64 {
        assert_eq!(prover.current_lineage().depth, i);
        let new_state = [(i + 1) as u8; 32];
        prover
            .add_transition(Transition::new(prev_state, new_state, Origin::User, (i + 1) * 100))
            .unwrap();
        prev_state = new_state;
    }
    assert_eq!(prover.current_lineage().depth, 10);
}

// Determinism: the same genesis and the same ordered transitions give
// bit-identical commitments; a different history gives a different one.
#[test]
fn test_deterministic_commitments() {
    let build = |timestamps: [u64; 2]| {
        let mut prover = LineageProver::new([7u8; 32]).unwrap();
        prover
            .add_transition(Transition::new([7u8; 32], [1u8; 32], Origin::User, timestamps[0]))
            .unwrap();
        prover
            .add_transition(Transition::new([1u8; 32], [2u8; 32], Origin::User, timestamps[1]))
            .unwrap();
        prover.current_lineage().clone()
    };
    let a = build([1000, 2000]);
    let b = build([1000, 2000]);
    let c = build([1000, 2001]);
    assert_eq!(a, b);
    assert_ne!(a.commitment, c.commitment);
}

#[test]
fn test_corrupted_proof_rejected() {
    let mut prover = LineageProver::new([0u8; 32]).unwrap();
    prover
        .add_transition(Transition::new([0u8; 32], [1u8; 32], Origin::User, 1000))
        .unwrap();
    let mut proof = prover.finalize().unwrap();
    assert!(proof.verify());

    proof.proof_data[0] ^= 1;
    assert!(!proof.verify());
}

#[test]
fn test_mismatched_output_rejected() {
    let mut prover = LineageProver::new([0u8; 32]).unwrap();
    prover
        .add_transition(Transition::new([0u8; 32], [1u8; 32], Origin::User, 1000))
        .unwrap();
    let mut proof = prover.finalize().unwrap();
    assert!(proof.verify());

    // Declare a different public output than the one the proof was bound to.
    proof.lineage_commitment.depth += 1;
    assert!(!proof.verify());

    let mut proof2 = prover.finalize().unwrap();
    proof2.lineage_commitment.commitment[0] ^= 1;
    assert!(!proof2.verify());
}

#[test]
fn test_proof_size_constant() {
    let mut short = LineageProver::new([0u8; 32]).unwrap();
    short
        .add_transition(Transition::new([0u8; 32], [1u8; 32], Origin::User, 1000))
        .unwrap();
    let short_proof = short.finalize().unwrap();

    let mut long = LineageProver::new([0u8; 32]).unwrap();
    let mut prev_state = [0u8; 32];
    for i in 0..100u64 {
        let new_state = [(i + 1) as u8; 32];
        long.add_transition(Transition::new(prev_state, new_state, Origin::User, (i + 1) * 1000))
            .unwrap();
        prev_state = new_state;
    }
    let long_proof = long.finalize().unwrap();

    assert_eq!(short_proof.proof_data.len(), long_proof.proof_data.len());
    assert!(long_proof.verify());
}
