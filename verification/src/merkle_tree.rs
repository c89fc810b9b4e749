//! What an inclusion proof is worth.
//!
//! A proof that was read off a tree leads to that tree's root. In the
//! other direction, a leaf or a proof element that was altered no longer
//! leads to the root, unless Keccak-256 gives two different inputs the same
//! digest: that is all that can be said without an assumption on the hash,
//! and it is what is proved here.

use vstd::prelude::*;
use crate::merkle_proof::{
    combine, fold_proof, keccak_hashv, leaf_of, lex_le, ordered_pair, proves, MERKLE_SEED,
};
use crate::state::{lemma_pubkey_equal_by_view, Pubkey};

verus! {

/// A binary hash tree: leaves carry digests, and an inner node stands for
/// the combination of its two children.
pub enum MerkleTree {
    Leaf { digest: Seq<u8> },
    Node { left: Box<MerkleTree>, right: Box<MerkleTree> },
}

/// The digest that commits to the whole tree.
pub open spec fn tree_root(tree: MerkleTree) -> Seq<u8>
    decreases tree,
{
    match tree {
        MerkleTree::Leaf { digest } => digest,
        MerkleTree::Node { left, right } => combine(tree_root(*left), tree_root(*right)),
    }
}

/// Whether `proof` lists, from the bottom up, the siblings met on the way
/// from a leaf with digest `leaf` to the root of `tree`.
pub open spec fn is_path(tree: MerkleTree, leaf: Seq<u8>, proof: Seq<Seq<u8>>) -> bool
    decreases tree,
{
    match tree {
        MerkleTree::Leaf { digest } => proof.len() == 0 && leaf == digest,
        MerkleTree::Node { left, right } => proof.len() > 0 && {
            ||| proof.last() == tree_root(*right) && is_path(*left, leaf, proof.drop_last())
            ||| proof.last() == tree_root(*left) && is_path(*right, leaf, proof.drop_last())
        },
    }
}

/// Two different inputs with the same Keccak-256 digest exist.
pub open spec fn keccak_collision() -> bool {
    exists|x: Seq<Seq<u8>>, y: Seq<Seq<u8>>|
        x != y && #[trigger] keccak_hashv(x) == #[trigger] keccak_hashv(y)
}

/// Of two byte strings one comes first.
pub proof fn lemma_lex_le_total(a: Seq<u8>, b: Seq<u8>)
    ensures
        lex_le(a, b) || lex_le(b, a),
    decreases a.len(),
{
    if a.len() > 0 && b.len() > 0 && a[0] == b[0] {
        lemma_lex_le_total(a.drop_first(), b.drop_first());
    }
}

/// Two byte strings that each come before the other are the same.
pub proof fn lemma_lex_le_antisymmetric(a: Seq<u8>, b: Seq<u8>)
    requires
        lex_le(a, b),
        lex_le(b, a),
    ensures
        a == b,
    decreases a.len(),
{
    if a.len() == 0 || b.len() == 0 {
        assert(a =~= b);
    } else {
        lemma_lex_le_antisymmetric(a.drop_first(), b.drop_first());
        assert(a =~= seq![a[0]] + a.drop_first());
        assert(b =~= seq![b[0]] + b.drop_first());
    }
}

/// The parent of two siblings does not depend on which is left and which
/// is right.
pub proof fn lemma_combine_symmetric(a: Seq<u8>, b: Seq<u8>)
    ensures
        combine(a, b) == combine(b, a),
{
    lemma_lex_le_total(a, b);
    if lex_le(a, b) && lex_le(b, a) {
        lemma_lex_le_antisymmetric(a, b);
    }
}

/// A proof read off a tree leads from its leaf to the tree's root: for a
/// leaf that is in the committed tree, with the siblings on its path as
/// the proof, verification succeeds.
pub proof fn lemma_path_proves_root(tree: MerkleTree, leaf: Seq<u8>, proof: Seq<Seq<u8>>)
    requires
        is_path(tree, leaf, proof),
    ensures
        proves(proof, tree_root(tree), leaf),
    decreases tree,
{
    match tree {
        MerkleTree::Leaf { digest } => {},
        MerkleTree::Node { left, right } => {
            if proof.last() == tree_root(*right) && is_path(*left, leaf, proof.drop_last()) {
                lemma_path_proves_root(*left, leaf, proof.drop_last());
            } else {
                lemma_path_proves_root(*right, leaf, proof.drop_last());
                lemma_combine_symmetric(tree_root(*left), tree_root(*right));
            }
        },
    }
}

/// Two pairs of siblings that differ in one member are hashed from
/// different inputs.
proof fn lemma_ordered_pair_injective(a: Seq<u8>, b: Seq<u8>, s: Seq<u8>, t: Seq<u8>)
    requires
        a != b && s == t || a == b && s != t,
    ensures
        ordered_pair(a, s) != ordered_pair(b, t),
{
    let x = ordered_pair(a, s);
    let y = ordered_pair(b, t);
    if x == y {
        assert(x[0] == y[0] && x[1] == y[1]);
    }
}

/// Folding one proof over two different digests gives two different
/// digests, unless the hash collides.
pub proof fn lemma_altered_leaf_changes_root(leaf: Seq<u8>, other: Seq<u8>, proof: Seq<Seq<u8>>)
    requires
        leaf != other,
    ensures
        fold_proof(leaf, proof) != fold_proof(other, proof) || keccak_collision(),
    decreases proof.len(),
{
    if proof.len() > 0 {
        let below = fold_proof(leaf, proof.drop_last());
        let other_below = fold_proof(other, proof.drop_last());
        lemma_altered_leaf_changes_root(leaf, other, proof.drop_last());
        if below != other_below {
            lemma_ordered_pair_injective(below, other_below, proof.last(), proof.last());
        }
    }
}

/// Folding a proof with one element replaced by a different one gives a
/// different digest, unless the hash collides.
pub proof fn lemma_altered_element_changes_root(
    leaf: Seq<u8>,
    proof: Seq<Seq<u8>>,
    index: int,
    element: Seq<u8>,
)
    requires
        0 <= index < proof.len(),
        element != proof[index],
    ensures
        fold_proof(leaf, proof) != fold_proof(leaf, proof.update(index, element))
            || keccak_collision(),
    decreases proof.len(),
{
    let altered = proof.update(index, element);
    let below = fold_proof(leaf, proof.drop_last());
    if index == proof.len() - 1 {
        assert(altered.drop_last() =~= proof.drop_last());
        lemma_ordered_pair_injective(below, below, proof.last(), element);
    } else {
        assert(altered.drop_last() =~= proof.drop_last().update(index, element));
        lemma_altered_element_changes_root(leaf, proof.drop_last(), index, element);
        let other_below = fold_proof(leaf, altered.drop_last());
        if below != other_below {
            lemma_ordered_pair_injective(below, other_below, proof.last(), proof.last());
        }
    }
}

/// Where a proof leads from a leaf to the root, it does not lead there
/// from any other leaf, be it one bit away: else two different inputs have
/// the same Keccak-256 digest.
pub proof fn lemma_altered_leaf_rejected(
    proof: Seq<Seq<u8>>,
    root: Seq<u8>,
    leaf: Seq<u8>,
    other: Seq<u8>,
)
    requires
        proves(proof, root, leaf),
        other != leaf,
    ensures
        !proves(proof, root, other) || keccak_collision(),
{
    lemma_altered_leaf_changes_root(leaf, other, proof);
}

/// Where a proof leads from a leaf to the root, the proof with one element
/// replaced by another value, be it one bit away, does not: else two
/// different inputs have the same Keccak-256 digest.
pub proof fn lemma_altered_element_rejected(
    proof: Seq<Seq<u8>>,
    root: Seq<u8>,
    leaf: Seq<u8>,
    index: int,
    element: Seq<u8>,
)
    requires
        proves(proof, root, leaf),
        0 <= index < proof.len(),
        element != proof[index],
    ensures
        !proves(proof.update(index, element), root, leaf) || keccak_collision(),
{
    lemma_altered_element_changes_root(leaf, proof, index, element);
}

/// Two different assets have different leaves, unless the hash collides.
pub proof fn lemma_leaf_of_injective(mint: Pubkey, other: Pubkey)
    requires
        mint != other,
    ensures
        leaf_of(mint@) != leaf_of(other@) || keccak_collision(),
{
    lemma_pubkey_equal_by_view(mint, other);
    let x = seq![MERKLE_SEED@, mint@];
    let y = seq![MERKLE_SEED@, other@];
    if x == y {
        assert(x[1] == y[1]);
    }
}

} // verus!
