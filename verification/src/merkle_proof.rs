//! Merkle inclusion proofs over Keccak-256 with sorted sibling pairs.
//!
//! A leaf is the digest of a fixed tag followed by the asset's identity. A
//! proof is the list of sibling digests from the leaf up to the root. At
//! each level the running digest and the sibling are put in lexicographic
//! order and hashed together.

use vstd::prelude::*;
use crate::state::{bytes_equal, Pubkey};

verus! {

/// The tag that starts every leaf preimage: the ASCII bytes of
/// `nft-staking-merkle-tree`.
pub const MERKLE_SEED: [u8; 23] = [
    110, 102, 116, 45, 115, 116, 97, 107, 105, 110, 103, 45, 109, 101, 114, 107, 108, 101, 45,
    116, 114, 101, 101,
];

/// The Keccak-256 digest of the concatenation of `vals`, as
/// `solana_program::keccak::hashv` computes it.
pub uninterp spec fn keccak_hashv(vals: Seq<Seq<u8>>) -> Seq<u8>;

/// Calls `anchor_lang::solana_program::keccak::hashv` on the two slices, in
/// this order, and hands back the 32 bytes of the digest. The digest is a
/// function of the input alone; its value is not stated here, only named.
#[verifier::external_body]
fn keccak_of_two(first: &[u8], second: &[u8]) -> (digest: [u8; 32])
    ensures
        digest@ == keccak_hashv(seq![first@, second@]),
{
    anchor_lang::solana_program::keccak::hashv(&[first, second]).0
}

/// Lexicographic `a <= b` on byte strings: the first position where the two
/// differ decides, and a prefix comes before its extensions.
pub open spec fn lex_le(a: Seq<u8>, b: Seq<u8>) -> bool
    decreases a.len(),
{
    if a.len() == 0 {
        true
    } else if b.len() == 0 {
        false
    } else if a[0] != b[0] {
        a[0] < b[0]
    } else {
        lex_le(a.drop_first(), b.drop_first())
    }
}

/// The two digests in the order in which they are hashed: the smaller first.
pub open spec fn ordered_pair(a: Seq<u8>, b: Seq<u8>) -> Seq<Seq<u8>> {
    if lex_le(a, b) {
        seq![a, b]
    } else {
        seq![b, a]
    }
}

/// The parent of two sibling digests.
pub open spec fn combine(a: Seq<u8>, b: Seq<u8>) -> Seq<u8> {
    keccak_hashv(ordered_pair(a, b))
}

/// The leaf that stands for the asset with identity `mint`.
pub open spec fn leaf_of(mint: Seq<u8>) -> Seq<u8> {
    keccak_hashv(seq![MERKLE_SEED@, mint])
}

/// The digest reached from `leaf` by combining it with each element of
/// `proof` in turn, first element first.
pub open spec fn fold_proof(leaf: Seq<u8>, proof: Seq<Seq<u8>>) -> Seq<u8>
    decreases proof.len(),
{
    if proof.len() == 0 {
        leaf
    } else {
        combine(fold_proof(leaf, proof.drop_last()), proof.last())
    }
}

/// A proof as a sequence of byte strings.
pub open spec fn proof_view(proof: Seq<[u8; 32]>) -> Seq<Seq<u8>> {
    Seq::new(proof.len(), |i: int| proof[i]@)
}

/// Whether `proof` leads from `leaf` to `root`.
pub open spec fn proves(proof: Seq<Seq<u8>>, root: Seq<u8>, leaf: Seq<u8>) -> bool {
    fold_proof(leaf, proof) == root
}

/// Lexicographic `a <= b` on two digests.
pub fn lex_le_bytes(a: &[u8; 32], b: &[u8; 32]) -> (le: bool)
    ensures
        le == lex_le(a@, b@),
{
    let mut i: usize = 0;
    assert(a@.skip(0) =~= a@ && b@.skip(0) =~= b@);
    while i < 32
        invariant
            i <= 32,
            lex_le(a@, b@) == lex_le(a@.skip(i as int), b@.skip(i as int)),
        decreases 32 - i,
    {
        assert(a@.skip(i as int).drop_first() =~= a@.skip(i + 1));
        assert(b@.skip(i as int).drop_first() =~= b@.skip(i + 1));
        if a[i] != b[i] {
            return a[i] < b[i];
        }
        i += 1;
    }
    true
}

/// The parent of two sibling digests.
pub fn hash_pair(a: &[u8; 32], b: &[u8; 32]) -> (parent: [u8; 32])
    ensures
        parent@ == combine(a@, b@),
{
    if lex_le_bytes(a, b) {
        keccak_of_two(a.as_slice(), b.as_slice())
    } else {
        keccak_of_two(b.as_slice(), a.as_slice())
    }
}

/// The leaf that stands for the asset `mint`.
pub fn leaf_hash(mint: &Pubkey) -> (leaf: [u8; 32])
    ensures
        leaf@ == leaf_of(mint@),
{
    keccak_of_two(MERKLE_SEED.as_slice(), mint.0.as_slice())
}

/// Whether `proof` leads from `leaf` to `root`: true exactly when folding
/// the proof over the leaf gives the root, byte for byte.
pub fn verify(proof: Vec<[u8; 32]>, root: [u8; 32], leaf: [u8; 32]) -> (ok: bool)
    ensures
        ok == proves(proof_view(proof@), root@, leaf@),
{
    let ghost steps = proof_view(proof@);
    let mut computed_hash = leaf;
    let mut i: usize = 0;
    assert(steps.take(0) =~= Seq::<Seq<u8>>::empty());
    while i < proof.len()
        invariant
            i <= proof.len(),
            steps == proof_view(proof@),
            computed_hash@ == fold_proof(leaf@, steps.take(i as int)),
        decreases proof.len() - i,
    {
        let proof_element = proof[i];
        assert(steps.take(i + 1).drop_last() =~= steps.take(i as int));
        assert(steps.take(i + 1).last() == proof_element@);
        computed_hash = hash_pair(&computed_hash, &proof_element);
        i += 1;
    }
    assert(steps.take(i as int) =~= steps);
    bytes_equal(&computed_hash, &root)
}

} // verus!
