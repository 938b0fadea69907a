//! The algebraic hash underlying lineage commitments and the policy tree,
//! together with conversions between 32-byte digests and field-element limbs.
//!
//! The primitive is a two-to-one sponge hash `h2`; the three- and four-input
//! entry points are fixed compositions of it, so a single trusted call
//! carries the whole construction.

use vstd::prelude::*;
use vstd::bytes::{spec_u64_from_le_bytes, spec_u64_to_le_bytes, u64_from_le_bytes, u64_to_le_bytes};
use vstd::slice::slice_subrange;
use ff::PrimeField;

verus! {

/// What the sponge permutation returns on a two-element preimage, each element
/// given by the four 64-bit little-endian limbs that select it in the field.
pub uninterp spec fn sponge2(a: Seq<u64>, b: Seq<u64>) -> Seq<u8>;

/// Holds the sponge's fixed public parameters (round constants and matrices),
/// generated once and reused across hashes. Every instance holds the same
/// parameters, so the hash stays a function of its preimage alone.
#[verifier::external_body]
pub struct SpongeContext {
    constants: neptune::poseidon::PoseidonConstants<pasta_curves::Fq, typenum::U2>,
}

/// Relies on neptune's Poseidon (arity 2, standard strength, Merkle-tree
/// domain) over the Pallas scalar field: the digest is a function of the two
/// preimage elements alone, and the round constants the context carries are
/// derived deterministically from the field and arity. The limbs enter the
/// field through `pasta_curves::Fq::from_raw` and the digest leaves through
/// `to_repr`, its canonical 32-byte little-endian representation.
#[verifier::external_body]
fn poseidon_two(ctx: &SpongeContext, a: &[u64; 4], b: &[u64; 4]) -> (r: [u8; 32])
    ensures
        r@ == sponge2(a@, b@),
{
    let fa = pasta_curves::Fq::from_raw(*a);
    let fb = pasta_curves::Fq::from_raw(*b);
    let mut hasher = neptune::Poseidon::new_with_preimage(&[fa, fb], &ctx.constants);
    hasher.hash().to_repr()
}

impl SpongeContext {
    /// Relies on neptune's PoseidonConstants::new: the fixed public sponge
    /// parameters for arity 2 over the Pallas scalar field, derived
    /// deterministically from the field and arity.
    #[verifier::external_body]
    pub fn new() -> (r: SpongeContext) {
        SpongeContext { constants: neptune::poseidon::PoseidonConstants::new() }
    }

    /// Hash two 32-byte digests into one.
    pub fn hash2(&self, a: &[u8; 32], b: &[u8; 32]) -> (r: [u8; 32])
        ensures
            r@ == h2(a@, b@),
    {
        poseidon_two(self, &bytes_to_field(a), &bytes_to_field(b))
    }

    /// Hash three digests: `h2(h2(a, b), c)`.
    pub fn hash3(&self, a: &[u8; 32], b: &[u8; 32], c: &[u8; 32]) -> (r: [u8; 32])
        ensures
            r@ == h3(a@, b@, c@),
    {
        let ab = self.hash2(a, b);
        self.hash2(&ab, c)
    }

    /// Hash four digests: `h2(h2(a, b), h2(c, d))`.
    pub fn hash4(&self, a: &[u8; 32], b: &[u8; 32], c: &[u8; 32], d: &[u8; 32]) -> (r: [u8; 32])
        ensures
            r@ == h4(a@, b@, c@, d@),
    {
        let ab = self.hash2(a, b);
        let cd = self.hash2(c, d);
        self.hash2(&ab, &cd)
    }
}

/// The four 64-bit little-endian limbs of a 32-byte digest.
pub open spec fn limbs_of(s: Seq<u8>) -> Seq<u64> {
    Seq::new(4, |i: int| spec_u64_from_le_bytes(s.subrange(8 * i, 8 * i + 8)))
}

/// The 32-byte digest with the given little-endian limbs.
pub open spec fn bytes_of_limbs(l: Seq<u64>) -> Seq<u8> {
    spec_u64_to_le_bytes(l[0]) + spec_u64_to_le_bytes(l[1]) + spec_u64_to_le_bytes(l[2])
        + spec_u64_to_le_bytes(l[3])
}

/// A 64-bit value injected into a 32-byte digest: its little-endian bytes,
/// padded with zeros. Feeding the result to `limbs_of` yields `[n, 0, 0, 0]`,
/// the limbs of the field element with value `n`.
pub open spec fn u64_digest(n: u64) -> Seq<u8> {
    spec_u64_to_le_bytes(n) + Seq::new(24, |i: int| 0u8)
}

/// Two-to-one algebraic hash over 32-byte digests.
pub open spec fn h2(a: Seq<u8>, b: Seq<u8>) -> Seq<u8> {
    sponge2(limbs_of(a), limbs_of(b))
}

/// Three-input entry point: `h3(a, b, c) = h2(h2(a, b), c)`.
pub open spec fn h3(a: Seq<u8>, b: Seq<u8>, c: Seq<u8>) -> Seq<u8> {
    h2(h2(a, b), c)
}

/// Four-input entry point: `h4(a, b, c, d) = h2(h2(a, b), h2(c, d))`.
pub open spec fn h4(a: Seq<u8>, b: Seq<u8>, c: Seq<u8>, d: Seq<u8>) -> Seq<u8> {
    h2(h2(a, b), h2(c, d))
}

/// Convert a 32-byte digest to its four 64-bit little-endian limbs.
pub fn bytes_to_field(bytes: &[u8; 32]) -> (r: [u64; 4])
    ensures
        r@ == limbs_of(bytes@),
{
    let s = bytes.as_slice();
    let l0 = u64_from_le_bytes(slice_subrange(s, 0, 8));
    let l1 = u64_from_le_bytes(slice_subrange(s, 8, 16));
    let l2 = u64_from_le_bytes(slice_subrange(s, 16, 24));
    let l3 = u64_from_le_bytes(slice_subrange(s, 24, 32));
    let r = [l0, l1, l2, l3];
    proof {
        assert(r@ =~= limbs_of(bytes@));
    }
    r
}

/// Convert four 64-bit little-endian limbs back to a 32-byte digest.
pub fn field_to_bytes(field: &[u64; 4]) -> (r: [u8; 32])
    ensures
        r@ == bytes_of_limbs(field@),
{
    let b0 = u64_to_le_bytes(field[0]);
    let b1 = u64_to_le_bytes(field[1]);
    let b2 = u64_to_le_bytes(field[2]);
    let b3 = u64_to_le_bytes(field[3]);
    let r = [
        b0[0], b0[1], b0[2], b0[3], b0[4], b0[5], b0[6], b0[7],
        b1[0], b1[1], b1[2], b1[3], b1[4], b1[5], b1[6], b1[7],
        b2[0], b2[1], b2[2], b2[3], b2[4], b2[5], b2[6], b2[7],
        b3[0], b3[1], b3[2], b3[3], b3[4], b3[5], b3[6], b3[7],
    ];
    proof {
        assert(r@ =~= bytes_of_limbs(field@));
    }
    r
}

/// A 64-bit value as a 32-byte digest: little-endian bytes padded with zeros.
pub fn u64_to_digest(n: u64) -> (r: [u8; 32])
    ensures
        r@ == u64_digest(n),
{
    let b = u64_to_le_bytes(n);
    let r = [
        b[0], b[1], b[2], b[3], b[4], b[5], b[6], b[7],
        0, 0, 0, 0, 0, 0, 0, 0, 0, 0, 0, 0,
        0, 0, 0, 0, 0, 0, 0, 0, 0, 0, 0, 0,
    ];
    proof {
        assert(r@ =~= u64_digest(n));
    }
    r
}

/// The limb decomposition loses nothing: converting a 32-byte digest to its
/// four limbs and back yields the digest unchanged.
pub proof fn lemma_limbs_round_trip(s: Seq<u8>)
    requires
        s.len() == 32,
    ensures
        bytes_of_limbs(limbs_of(s)) == s,
{
    vstd::bytes::lemma_auto_spec_u64_to_from_le_bytes();
    assert(bytes_of_limbs(limbs_of(s)) =~= s);
}

/// Compare two 32-byte digests.
pub(crate) fn digests_equal(a: &[u8; 32], b: &[u8; 32]) -> (r: bool)
    ensures
        r == (a@ == b@),
{
    let mut i: usize = 0;
    while i < 32
        invariant
            0 <= i <= 32,
            forall|j: int| 0 <= j < i ==> a@[j] == b@[j],
        decreases 32 - i,
    {
        if a[i] != b[i] {
            return false;
        }
        i = i + 1;
    }
    proof {
        assert(a@ =~= b@);
    }
    true
}

/// The sixteen hex digits, lowest value first.
pub open spec fn hex_digits() -> Seq<char> {
    seq!['0', '1', '2', '3', '4', '5', '6', '7', '8', '9', 'a', 'b', 'c', 'd', 'e', 'f']
}

/// Lowercase hex rendering of a byte sequence: two digits per byte, high
/// nibble first.
pub open spec fn hex_encoding(s: Seq<u8>) -> Seq<char> {
    Seq::new(
        2 * s.len(),
        |i: int|
            if i % 2 == 0 {
                hex_digits()[s[i / 2] as int / 16]
            } else {
                hex_digits()[s[i / 2] as int % 16]
            },
    )
}

/// Native form of the sponge hash with fixed-arity entry points. The circuit
/// form must enforce value-for-value the same function these compute.
pub struct PoseidonGadget;

impl PoseidonGadget {
    /// Hash two 32-byte digests into one.
    pub fn hash2(a: &[u8; 32], b: &[u8; 32]) -> (r: [u8; 32])
        ensures
            r@ == h2(a@, b@),
    {
        SpongeContext::new().hash2(a, b)
    }

    /// Hash three digests: `h2(h2(a, b), c)`.
    pub fn hash3(a: &[u8; 32], b: &[u8; 32], c: &[u8; 32]) -> (r: [u8; 32])
        ensures
            r@ == h3(a@, b@, c@),
    {
        SpongeContext::new().hash3(a, b, c)
    }

    /// Hash four digests: `h2(h2(a, b), h2(c, d))`.
    pub fn hash4(a: &[u8; 32], b: &[u8; 32], c: &[u8; 32], d: &[u8; 32]) -> (r: [u8; 32])
        ensures
            r@ == h4(a@, b@, c@, d@),
    {
        SpongeContext::new().hash4(a, b, c, d)
    }
}

} // verus!
