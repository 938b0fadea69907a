//! Merkle membership verification over the two-to-one sponge hash.

use vstd::prelude::*;
use crate::hash::{h2, SpongeContext};

verus! {

/// One folding step up the tree: hash the current digest with its sibling,
/// on the side the direction bit selects (`true` means the current node is
/// the right child).
pub open spec fn merkle_step(cur: Seq<u8>, sibling: Seq<u8>, dir: bool) -> Seq<u8> {
    if dir {
        h2(sibling, cur)
    } else {
        h2(cur, sibling)
    }
}

/// Fold a leaf up a Merkle path: level by level, hash with the sibling on the
/// side its direction bit selects.
pub open spec fn merkle_fold(cur: Seq<u8>, path: Seq<Seq<u8>>, dirs: Seq<bool>) -> Seq<u8>
    recommends
        path.len() == dirs.len(),
    decreases path.len(),
{
    if path.len() == 0 {
        cur
    } else {
        merkle_fold(merkle_step(cur, path[0], dirs[0]), path.drop_first(), dirs.drop_first())
    }
}

/// A three-level path folds to three nested steps.
pub proof fn lemma_fold_three(
    cur: Seq<u8>,
    s0: Seq<u8>,
    s1: Seq<u8>,
    s2: Seq<u8>,
    d0: bool,
    d1: bool,
    d2: bool,
)
    ensures
        merkle_fold(cur, seq![s0, s1, s2], seq![d0, d1, d2]) == merkle_step(
            merkle_step(merkle_step(cur, s0, d0), s1, d1),
            s2,
            d2,
        ),
{
    reveal_with_fuel(merkle_fold, 4);
    assert(seq![s0, s1, s2].drop_first() =~= seq![s1, s2]);
    assert(seq![d0, d1, d2].drop_first() =~= seq![d1, d2]);
    assert(seq![s1, s2].drop_first() =~= seq![s2]);
    assert(seq![d1, d2].drop_first() =~= seq![d2]);
    assert(seq![s2].drop_first() =~= Seq::<Seq<u8>>::empty());
    assert(seq![d2].drop_first() =~= Seq::<bool>::empty());
}

/// Native Merkle membership check: the circuit form must constrain exactly
/// the recomputation this performs.
pub struct MerkleGadget;

impl MerkleGadget {
    /// Recompute the root from `leaf` along `path` and compare it with
    /// `root`: true exactly when the recomputed root agrees.
    pub fn verify(
        leaf: &[u8; 32],
        root: &[u8; 32],
        path: &Vec<[u8; 32]>,
        directions: &Vec<bool>,
    ) -> (r: bool)
        requires
            path@.len() == directions@.len(),
        ensures
            r == (merkle_fold(leaf@, path@.map_values(|d: [u8; 32]| d@), directions@) == root@),
    {
        let ctx = SpongeContext::new();
        let ghost pv = path@.map_values(|d: [u8; 32]| d@);
        let mut cur: [u8; 32] = *leaf;
        let mut k: usize = 0;
        proof {
            assert(pv.skip(0) =~= pv);
            assert(directions@.skip(0) =~= directions@);
        }
        while k < path.len()
            invariant
                0 <= k <= path@.len(),
                path@.len() == directions@.len(),
                pv == path@.map_values(|d: [u8; 32]| d@),
                merkle_fold(leaf@, pv, directions@) == merkle_fold(
                    cur@,
                    pv.skip(k as int),
                    directions@.skip(k as int),
                ),
            decreases path@.len() - k,
        {
            proof {
                assert(pv.skip(k as int)[0] == pv[k as int]);
                assert(pv.skip(k as int).drop_first() =~= pv.skip(k as int + 1));
                assert(directions@.skip(k as int).drop_first() =~= directions@.skip(
                    k as int + 1,
                ));
            }
            if directions[k] {
                cur = ctx.hash2(&path[k], &cur);
            } else {
                cur = ctx.hash2(&cur, &path[k]);
            }
            k = k + 1;
        }
        proof {
            assert(pv.skip(path@.len() as int) =~= Seq::<Seq<u8>>::empty());
            assert(directions@.skip(directions@.len() as int) =~= Seq::<bool>::empty());
        }
        crate::hash::digests_equal(&cur, root)
    }
}

} // verus!
