//! The origin-transition policy: the in-the-clear evaluator and its committed
//! Merkle form.

use vstd::prelude::*;
use crate::hash::{h2, u64_digest, u64_to_digest, SpongeContext};
use crate::merkle::{lemma_fold_three, merkle_fold, merkle_step};
use crate::origin::{origin_code, Origin};

verus! {

/// A permitted pair as a Merkle leaf: the two-to-one hash of the origins'
/// field encodings.
pub open spec fn policy_leaf(from: Origin, to: Origin) -> Seq<u8> {
    h2(u64_digest(origin_code(from) as u64), u64_digest(origin_code(to) as u64))
}

/// The leaf in slot `i` of the eight-slot committed tree: the `i`-th pair's
/// leaf in table order, or the all-zero digest for an unused slot.
pub open spec fn slot_leaf(pairs: Seq<(Origin, Origin)>, i: int) -> Seq<u8> {
    if 0 <= i < pairs.len() {
        policy_leaf(pairs[i].0, pairs[i].1)
    } else {
        u64_digest(0)
    }
}

/// Root of the committed policy tree: a fixed-depth tree over the eight
/// slots, so the root is reproducible from the table order alone.
pub open spec fn policy_root(pairs: Seq<(Origin, Origin)>) -> Seq<u8> {
    h2(
        h2(
            h2(slot_leaf(pairs, 0), slot_leaf(pairs, 1)),
            h2(slot_leaf(pairs, 2), slot_leaf(pairs, 3)),
        ),
        h2(
            h2(slot_leaf(pairs, 4), slot_leaf(pairs, 5)),
            h2(slot_leaf(pairs, 6), slot_leaf(pairs, 7)),
        ),
    )
}

/// The policy decision. Rule 1 (structural): once the depth is positive,
/// Genesis is never a permitted destination. Rule 2 (table): the pair must
/// appear in the permitted set.
pub open spec fn policy_allows(
    pairs: Seq<(Origin, Origin)>,
    from: Origin,
    to: Origin,
    depth: u64,
) -> bool {
    &&& !(depth > 0 && to == Origin::Genesis)
    &&& pairs.contains((from, to))
}

/// Genesis protection: once the depth is positive, a transition targeting
/// Genesis is never permitted, whatever the source origin and whatever the
/// table holds.
pub proof fn lemma_genesis_protected(
    pairs: Seq<(Origin, Origin)>,
    from: Origin,
    depth: u64,
)
    requires
        depth > 0,
    ensures
        !policy_allows(pairs, from, Origin::Genesis, depth),
{
}

/// The default permitted-pairs table, in its committed order.
pub open spec fn default_pairs() -> Seq<(Origin, Origin)> {
    seq![
        (Origin::Genesis, Origin::User),
        (Origin::Genesis, Origin::Admin),
        (Origin::User, Origin::User),
        (Origin::Admin, Origin::User),
        (Origin::Admin, Origin::Admin),
        (Origin::Admin, Origin::Bridge),
        (Origin::Bridge, Origin::User),
    ]
}

/// Origin transition policy: an ordered table of permitted `(from, to)`
/// pairs. The order is part of the committed identity — changing it changes
/// the Merkle root even if the set of pairs does not.
#[derive(Clone, Debug)]
pub struct Policy {
    /// Permitted transitions as (from, to) pairs.
    allowed: Vec<(Origin, Origin)>,
}

impl Policy {
    /// The permitted-pairs table, in order.
    pub closed spec fn pairs(&self) -> Seq<(Origin, Origin)> {
        self.allowed@
    }

    /// The table fits the eight slots of the committed tree.
    pub open spec fn wf(&self) -> bool {
        self.pairs().len() <= 8
    }

    /// Create the default policy.
    pub fn default_policy() -> (r: Self)
        ensures
            r.pairs() == default_pairs(),
            r.wf(),
    {
        let allowed = vec![
            (Origin::Genesis, Origin::User),
            (Origin::Genesis, Origin::Admin),
            (Origin::User, Origin::User),
            (Origin::Admin, Origin::User),
            (Origin::Admin, Origin::Admin),
            (Origin::Admin, Origin::Bridge),
            (Origin::Bridge, Origin::User),
        ];
        proof {
            assert(allowed@ =~= default_pairs());
        }
        Self { allowed }
    }

    /// Check whether a transition is allowed at the given chain depth.
    pub fn is_allowed(&self, from: Origin, to: Origin, depth: u64) -> (r: bool)
        ensures
            r == policy_allows(self.pairs(), from, to, depth),
    {
        if depth > 0 && to == Origin::Genesis {
            return false;
        }
        let mut i: usize = 0;
        while i < self.allowed.len()
            invariant
                0 <= i <= self.allowed@.len(),
                !(depth > 0 && to == Origin::Genesis),
                forall|j: int| 0 <= j < i ==> self.allowed@[j] != (from, to),
            decreases self.allowed@.len() - i,
        {
            let p = self.allowed[i];
            if p.0 == from && p.1 == to {
                proof {
                    assert(p == (from, to));
                    assert(self.allowed@[i as int] == (from, to));
                    assert(self.pairs().contains((from, to)));
                }
                return true;
            }
            proof {
                assert(p != (from, to));
            }
            i = i + 1;
        }
        proof {
            assert(!self.pairs().contains((from, to))) by {
                if self.pairs().contains((from, to)) {
                    let j = choose|j: int|
                        0 <= j < self.allowed@.len() && self.allowed@[j] == (from, to);
                    assert(self.allowed@[j] != (from, to));
                }
            }
        }
        false
    }

    /// Leaves of the committed tree, one per slot.
    fn slot_leaves(&self, ctx: &SpongeContext) -> (r: Vec<[u8; 32]>)
        ensures
            r@.len() == 8,
            forall|i: int| 0 <= i < 8 ==> r@[i]@ == slot_leaf(self.pairs(), i),
    {
        let zero = u64_to_digest(0);
        let mut r: Vec<[u8; 32]> = Vec::new();
        let mut i: usize = 0;
        while i < 8
            invariant
                0 <= i <= 8,
                r@.len() == i,
                zero@ == u64_digest(0),
                forall|j: int| 0 <= j < i ==> r@[j]@ == slot_leaf(self.pairs(), j),
            decreases 8 - i,
        {
            if i < self.allowed.len() {
                let p = self.allowed[i];
                r.push(
                    ctx.hash2(
                        &u64_to_digest(p.0.as_u8() as u64),
                        &u64_to_digest(p.1.as_u8() as u64),
                    ),
                );
            } else {
                r.push(zero);
            }
            i = i + 1;
        }
        r
    }

    /// The Merkle root committing to the policy table.
    pub fn merkle_root(&self) -> (r: [u8; 32])
        requires
            self.wf(),
        ensures
            r@ == policy_root(self.pairs()),
    {
        let ctx = SpongeContext::new();
        let leaves = self.slot_leaves(&ctx);
        let n10 = ctx.hash2(&leaves[0], &leaves[1]);
        let n11 = ctx.hash2(&leaves[2], &leaves[3]);
        let n12 = ctx.hash2(&leaves[4], &leaves[5]);
        let n13 = ctx.hash2(&leaves[6], &leaves[7]);
        let n20 = ctx.hash2(&n10, &n11);
        let n21 = ctx.hash2(&n12, &n13);
        ctx.hash2(&n20, &n21)
    }

    /// The sibling path and direction bits that place `(from, to)` in the
    /// committed tree, for use as a circuit witness. `None` exactly when the
    /// pair is not in the table, so membership outside the permitted set
    /// cannot be proved.
    pub fn path_for(&self, from: Origin, to: Origin) -> (r: Option<(Vec<[u8; 32]>, Vec<bool>)>)
        requires
            self.wf(),
        ensures
            r is Some <==> self.pairs().contains((from, to)),
            r matches Some(pd) ==> {
                &&& pd.0@.len() == 3
                &&& pd.1@.len() == 3
                &&& merkle_fold(
                    policy_leaf(from, to),
                    pd.0@.map_values(|d: [u8; 32]| d@),
                    pd.1@,
                ) == policy_root(self.pairs())
            },
    {
        let mut idx: usize = 0;
        let mut found = false;
        while idx < self.allowed.len() && !found
            invariant
                0 <= idx <= self.allowed@.len(),
                !found ==> forall|j: int| 0 <= j < idx ==> self.allowed@[j] != (from, to),
                found ==> idx < self.allowed@.len() && self.allowed@[idx as int] == (from, to),
            decreases self.allowed@.len() - idx + (if found { 0int } else { 1int }),
        {
            let p = self.allowed[idx];
            if p.0 == from && p.1 == to {
                proof {
                    assert(p == (from, to));
                }
                found = true;
            } else {
                proof {
                    assert(p != (from, to));
                }
                idx = idx + 1;
            }
        }
        if !found {
            proof {
                assert(!self.pairs().contains((from, to))) by {
                    if self.pairs().contains((from, to)) {
                        let j = choose|j: int|
                            0 <= j < self.allowed@.len() && self.allowed@[j] == (from, to);
                        assert(self.allowed@[j] != (from, to));
                    }
                }
            }
            return None;
        }
        proof {
            assert(self.pairs().contains((from, to)));
        }
        let ctx = SpongeContext::new();
        let leaves = self.slot_leaves(&ctx);
        let n10 = ctx.hash2(&leaves[0], &leaves[1]);
        let n11 = ctx.hash2(&leaves[2], &leaves[3]);
        let n12 = ctx.hash2(&leaves[4], &leaves[5]);
        let n13 = ctx.hash2(&leaves[6], &leaves[7]);
        let n20 = ctx.hash2(&n10, &n11);
        let n21 = ctx.hash2(&n12, &n13);
        let d0 = idx % 2 == 1;
        let d1 = (idx / 2) % 2 == 1;
        let d2 = (idx / 4) % 2 == 1;
        let s0 = if d0 {
            leaves[idx - 1]
        } else {
            leaves[idx + 1]
        };
        let s1 = if d1 {
            if idx / 2 == 1 {
                n10
            } else {
                n12
            }
        } else {
            if idx / 2 == 0 {
                n11
            } else {
                n13
            }
        };
        let s2 = if d2 {
            n20
        } else {
            n21
        };
        let path = vec![s0, s1, s2];
        let dirs = vec![d0, d1, d2];
        proof {
            let pairs = self.pairs();
            let leaf = policy_leaf(from, to);
            assert(leaf == slot_leaf(pairs, idx as int));
            lemma_fold_three(leaf, s0@, s1@, s2@, d0, d1, d2);
            assert(path@.map_values(|d: [u8; 32]| d@) =~= seq![s0@, s1@, s2@]);
            assert(dirs@ =~= seq![d0, d1, d2]);
            assert(merkle_step(merkle_step(merkle_step(leaf, s0@, d0), s1@, d1), s2@, d2)
                == policy_root(pairs));
        }
        Some((path, dirs))
    }
}

} // verus!
