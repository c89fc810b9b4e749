use anchor_lang::solana_program::keccak::hashv;
use token_stake_model::merkle_proof::{hash_pair, leaf_hash, lex_le_bytes, verify, MERKLE_SEED};
use token_stake_model::state::bytes_equal;
use token_stake_model::Pubkey;

fn mint(n: u8) -> Pubkey {
    let mut bytes = [n; 32];
    bytes[31] = n.wrapping_mul(7).wrapping_add(1);
    Pubkey(bytes)
}

/// A tree over four assets: the leaves, the two inner nodes and the root.
fn tree() -> ([[u8; 32]; 4], [[u8; 32]; 2], [u8; 32]) {
    let leaves = [leaf_hash(&mint(1)), leaf_hash(&mint(2)), leaf_hash(&mint(3)), leaf_hash(&mint(4))];
    let inner = [hash_pair(&leaves[0], &leaves[1]), hash_pair(&leaves[2], &leaves[3])];
    let root = hash_pair(&inner[0], &inner[1]);
    (leaves, inner, root)
}

#[test]
fn the_hash_is_keccak_256() {
    let empty: [&[u8]; 0] = [];
    assert_eq!(
        hashv(&empty).0,
        [
            0xc5, 0xd2, 0x46, 0x01, 0x86, 0xf7, 0x23, 0x3c, 0x92, 0x7e, 0x7d, 0xb2, 0xdc, 0xc7,
            0x03, 0xc0, 0xe5, 0x00, 0xb6, 0x53, 0xca, 0x82, 0x27, 0x3b, 0x7b, 0xfa, 0xd8, 0x04,
            0x5d, 0x85, 0xa4, 0x70,
        ]
    );
}

#[test]
fn the_tag_is_the_text() {
    assert_eq!(&MERKLE_SEED[..], b"nft-staking-merkle-tree".as_ref());
}

#[test]
fn leaf_is_the_digest_of_tag_and_asset() {
    let asset = mint(9);
    let expected = hashv(&[b"nft-staking-merkle-tree".as_ref(), asset.0.as_ref()]).0;
    assert_eq!(leaf_hash(&asset), expected);
    assert_ne!(leaf_hash(&asset), asset.0);
    assert_ne!(leaf_hash(&asset), leaf_hash(&mint(10)));
    let mut joined = b"nft-staking-merkle-tree".to_vec();
    joined.extend_from_slice(&asset.0);
    assert_eq!(leaf_hash(&asset), hashv(&[joined.as_slice()]).0);
}

#[test]
fn pair_is_hashed_smaller_first() {
    let low = [1u8; 32];
    let mut high = [1u8; 32];
    high[31] = 2;
    let expected = hashv(&[low.as_ref(), high.as_ref()]).0;
    assert_eq!(hash_pair(&low, &high), expected);
    assert_eq!(hash_pair(&high, &low), expected);
    assert_ne!(expected, hashv(&[high.as_ref(), low.as_ref()]).0);
    assert_ne!(hash_pair(&low, &high), low);
    assert_ne!(hash_pair(&low, &high), high);
    assert_eq!(hash_pair(&low, &low), hashv(&[low.as_ref(), low.as_ref()]).0);
}

#[test]
fn order_is_lexicographic() {
    let zero = [0u8; 32];
    let mut first_byte = [0u8; 32];
    first_byte[0] = 1;
    let mut last_byte = [0u8; 32];
    last_byte[31] = 255;
    assert!(lex_le_bytes(&zero, &zero));
    assert!(lex_le_bytes(&zero, &last_byte));
    assert!(!lex_le_bytes(&last_byte, &zero));
    assert!(lex_le_bytes(&last_byte, &first_byte));
    assert!(!lex_le_bytes(&first_byte, &last_byte));
    let mut mixed = [9u8; 32];
    mixed[3] = 8;
    let mut other = [9u8; 32];
    other[3] = 10;
    other[4] = 0;
    assert!(lex_le_bytes(&mixed, &other));
    assert!(!lex_le_bytes(&other, &mixed));
    for (a, b) in [(zero, first_byte), (mixed, other), (last_byte, first_byte)] {
        assert_eq!(lex_le_bytes(&a, &b), a <= b);
        assert_eq!(lex_le_bytes(&b, &a), b <= a);
    }
}

#[test]
fn bytes_equal_compares_every_byte() {
    let a = [5u8; 32];
    assert!(bytes_equal(&a, &a));
    for i in 0..32 {
        let mut b = a;
        b[i] ^= 1;
        assert!(!bytes_equal(&a, &b));
    }
}

#[test]
fn proof_from_the_tree_verifies() {
    let (leaves, inner, root) = tree();
    assert!(verify(vec![leaves[1], inner[1]], root, leaves[0]));
    assert!(verify(vec![leaves[0], inner[1]], root, leaves[1]));
    assert!(verify(vec![leaves[3], inner[0]], root, leaves[2]));
    assert!(verify(vec![leaves[2], inner[0]], root, leaves[3]));
    assert!(verify(vec![inner[1]], root, inner[0]));
}

#[test]
fn empty_proof_verifies_the_root_only() {
    let (leaves, _, root) = tree();
    assert!(verify(vec![], root, root));
    assert!(!verify(vec![], root, leaves[0]));
    assert!(verify(vec![], leaves[0], leaves[0]));
}

#[test]
fn any_flipped_bit_of_the_leaf_is_rejected() {
    let (leaves, inner, root) = tree();
    for byte in 0..32 {
        for bit in 0..8 {
            let mut leaf = leaves[0];
            leaf[byte] ^= 1 << bit;
            assert!(!verify(vec![leaves[1], inner[1]], root, leaf));
        }
    }
}

#[test]
fn any_flipped_bit_of_a_proof_element_is_rejected() {
    let (leaves, inner, root) = tree();
    let proof = [leaves[1], inner[1]];
    for element in 0..2 {
        for byte in 0..32 {
            for bit in 0..8 {
                let mut altered = proof;
                altered[element][byte] ^= 1 << bit;
                assert!(!verify(altered.to_vec(), root, leaves[0]));
            }
        }
    }
}

#[test]
fn any_flipped_bit_of_the_root_is_rejected() {
    let (leaves, inner, root) = tree();
    for byte in 0..32 {
        let mut other = root;
        other[byte] ^= 0x80;
        assert!(!verify(vec![leaves[1], inner[1]], other, leaves[0]));
    }
}

#[test]
fn wrong_shape_of_proof_is_rejected() {
    let (leaves, inner, root) = tree();
    assert!(!verify(vec![inner[1], leaves[1]], root, leaves[0]));
    assert!(!verify(vec![leaves[1]], root, leaves[0]));
    assert!(!verify(vec![leaves[1], inner[1], inner[1]], root, leaves[0]));
    assert!(!verify(vec![leaves[1], inner[1]], root, leaf_hash(&mint(5))));
}

#[test]
fn pubkey_round_trip_and_equality() {
    let key = mint(3);
    assert_eq!(Pubkey::new_from_array(key.to_bytes()), key);
    assert_ne!(mint(3), mint(4));
    let mut bytes = key.to_bytes();
    bytes[17] ^= 4;
    assert!(Pubkey(bytes) != key);
}
