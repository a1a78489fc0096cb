use ark_bn254::Fr;
use light_poseidon::{Poseidon, PoseidonBytesHasher};
use poseidon_merkle_tree::{zeros, PoseidonMerkleTree, PoseidonMerkleTreeError, MAX_LEVELS};

fn poseidon(left: &[u8; 32], right: &[u8; 32]) -> [u8; 32] {
    let mut hasher = Poseidon::<Fr>::new_circom(2).unwrap();
    hasher.hash_bytes_be(&[left, right]).unwrap()
}

fn leaf_of(i: u32) -> [u8; 32] {
    let mut leaf = [0u8; 32];
    leaf[28..].copy_from_slice(&(i + 1).to_be_bytes());
    leaf
}

#[test]
fn test_new_valid_levels() {
    let tree = PoseidonMerkleTree::new(5).unwrap();
    assert_eq!(tree.levels, 5);
    assert_eq!(tree.filled_subtrees.len(), 5);
    assert_eq!(tree.roots.len(), MAX_LEVELS);
    assert_eq!(tree.current_root_index, 0);
    assert_eq!(tree.next_index, 0);
    assert_eq!(tree.roots[0], zeros(4));
    assert_eq!(tree.filled_subtrees[0], zeros(0));
    assert_eq!(tree.filled_subtrees[4], zeros(4));
}

#[test]
fn test_new_invalid_levels() {
    let result = PoseidonMerkleTree::new(MAX_LEVELS as u32 + 1);
    assert_eq!(result, Err(PoseidonMerkleTreeError::InvalidLevels));
}

#[test]
fn test_insert_single_leaf() {
    let mut tree = PoseidonMerkleTree::new(3).unwrap();
    let leaf = [1u8; 32];
    let result = tree.insert(&leaf);
    assert!(result.is_ok());
    assert_eq!(result.unwrap(), 1);
    assert_eq!(tree.next_index, 1);
    assert_eq!(tree.current_root_index, 1);
    assert_eq!(tree.filled_subtrees[0], leaf);
    assert_ne!(tree.roots[1], [0; 32]);
}

#[test]
fn test_insert_multiple_leaves() {
    let mut tree = PoseidonMerkleTree::new(3).unwrap();
    let leaf1 = [1u8; 32];
    let leaf2 = [2u8; 32];

    tree.insert(&leaf1).unwrap();
    tree.insert(&leaf2).unwrap();

    assert_eq!(tree.next_index, 2);
    assert_eq!(tree.current_root_index, 2);

    let mut poseidon = Poseidon::<Fr>::new_circom(2).unwrap();
    let expected_hash = poseidon.hash_bytes_be(&[&leaf1, &leaf2]).unwrap();
    assert_eq!(tree.filled_subtrees[1], expected_hash);
}

#[test]
fn test_merkle_tree_full() {
    let mut tree = PoseidonMerkleTree::new(2).unwrap();
    let leaf = [1u8; 32];

    tree.insert(&leaf).unwrap();
    tree.insert(&leaf).unwrap();
    tree.insert(&leaf).unwrap();
    tree.insert(&leaf).unwrap();

    let result = tree.insert(&leaf);
    assert_eq!(result, Err(PoseidonMerkleTreeError::MerkleTreeFull));
}

#[test]
fn test_is_known_root() {
    let mut tree = PoseidonMerkleTree::new(3).unwrap();
    let leaf = [1u8; 32];
    tree.insert(&leaf).unwrap();

    let current_root = tree.roots[1];
    assert!(tree.is_known_root(current_root));
    assert!(!tree.is_known_root([0; 32]));
    assert!(!tree.is_known_root([2u8; 32]));
}

#[test]
fn test_root_history() {
    let mut tree = PoseidonMerkleTree::new(3).unwrap();
    let leaf = [1u8; 32];

    for i in 0..5 {
        tree.insert(&leaf).unwrap();
        let root = tree.roots[(i + 1) as usize];
        assert!(tree.is_known_root(root));
    }

    let first_root = tree.roots[1];
    assert!(tree.is_known_root(first_root));
}

#[test]
fn every_height_up_to_the_maximum_is_built() {
    for levels in 0..=MAX_LEVELS as u32 {
        let tree = PoseidonMerkleTree::new(levels).unwrap();
        assert_eq!(tree.levels, levels);
        assert_eq!(tree.filled_subtrees.len(), levels as usize);
        for (i, node) in tree.filled_subtrees.iter().enumerate() {
            assert_eq!(*node, zeros(i as u32));
        }
        assert_eq!(tree.roots.len(), MAX_LEVELS);
        for slot in &tree.roots[1..] {
            assert_eq!(*slot, [0u8; 32]);
        }
    }
    assert_eq!(PoseidonMerkleTree::new(MAX_LEVELS as u32).unwrap().roots[0], zeros(19));
    assert_eq!(PoseidonMerkleTree::new(0).unwrap().roots[0], zeros(0));
    assert_eq!(PoseidonMerkleTree::new(u32::MAX), Err(PoseidonMerkleTreeError::InvalidLevels));
}

#[test]
fn zero_table_ends() {
    assert_eq!(zeros(0)[0], 0x28);
    assert_eq!(zeros(0)[31], 0x09);
    assert_eq!(zeros(20)[0], 0x28);
    assert_eq!(zeros(20)[31], 0x6f);
}

#[test]
fn stored_size_is_fixed() {
    assert_eq!(PoseidonMerkleTree::SIZE, 4 + 32 * 20 + 32 * 20 + 4 + 4);
    assert_eq!(PoseidonMerkleTree::SIZE, 1292);
}

#[test]
fn height_three_takes_exactly_eight_leaves() {
    let mut tree = PoseidonMerkleTree::new(3).unwrap();
    for i in 0..8u32 {
        assert_eq!(tree.insert(&leaf_of(i)), Ok(i + 1));
    }
    let before = tree.clone();
    assert_eq!(tree.insert(&leaf_of(8)), Err(PoseidonMerkleTreeError::MerkleTreeFull));
    assert_eq!(tree, before);
    assert_eq!(tree.insert(&leaf_of(9)), Err(PoseidonMerkleTreeError::MerkleTreeFull));
    assert_eq!(tree, before);
}

#[test]
fn height_zero_holds_one_leaf_which_is_the_root() {
    let mut tree = PoseidonMerkleTree::new(0).unwrap();
    let leaf = [7u8; 32];
    assert_eq!(tree.insert(&leaf), Ok(1));
    assert_eq!(tree.roots[1], leaf);
    assert!(tree.is_known_root(leaf));
    assert_eq!(tree.insert(&leaf), Err(PoseidonMerkleTreeError::MerkleTreeFull));
}

#[test]
fn zero_is_never_a_known_root() {
    let mut tree = PoseidonMerkleTree::new(4).unwrap();
    assert!(!tree.is_known_root([0u8; 32]));
    assert!(tree.is_known_root(zeros(3)));
    for i in 0..6u32 {
        tree.insert(&leaf_of(i)).unwrap();
        assert!(!tree.is_known_root([0u8; 32]));
    }
}

#[test]
fn the_last_twenty_roots_are_known() {
    let mut tree = PoseidonMerkleTree::new(5).unwrap();
    let mut produced = Vec::new();
    for i in 0..25u32 {
        tree.insert(&leaf_of(i)).unwrap();
        produced.push(tree.roots[tree.current_root_index as usize]);
        if i < 20 {
            for root in &produced {
                assert!(tree.is_known_root(*root));
            }
        }
    }
    for root in &produced[5..] {
        assert!(tree.is_known_root(*root));
    }
    for root in &produced[..5] {
        assert!(!tree.is_known_root(*root));
    }
    assert_eq!(tree.current_root_index, 25 % 20);
}

#[test]
fn equal_trees_stay_equal() {
    let mut a = PoseidonMerkleTree::new(4).unwrap();
    let mut b = PoseidonMerkleTree::new(4).unwrap();
    for i in 0..9u32 {
        let ra = a.insert(&leaf_of(i));
        let rb = b.insert(&leaf_of(i));
        assert_eq!(ra, rb);
        assert_eq!(a.roots[a.current_root_index as usize], b.roots[b.current_root_index as usize]);
    }
    assert_eq!(a, b);
}

#[test]
fn first_leaf_pairs_with_the_empty_leaf() {
    let mut tree = PoseidonMerkleTree::new(1).unwrap();
    let leaf = [1u8; 32];
    tree.insert(&leaf).unwrap();
    let expected = poseidon(&leaf, &zeros(0));
    assert_eq!(tree.roots[1], expected);
    assert_ne!(tree.roots[1], leaf);
    tree.insert(&[2u8; 32]).unwrap();
    assert_eq!(tree.roots[2], poseidon(&leaf, &[2u8; 32]));
}

#[test]
fn second_leaf_completes_the_first_pair() {
    let mut tree = PoseidonMerkleTree::new(3).unwrap();
    let a = [1u8; 32];
    let b = [2u8; 32];
    tree.insert(&a).unwrap();
    tree.insert(&b).unwrap();
    let pair = poseidon(&a, &b);
    assert_eq!(tree.filled_subtrees[0], a);
    assert_eq!(tree.filled_subtrees[1], pair);
    let up = poseidon(&pair, &zeros(1));
    assert_eq!(tree.filled_subtrees[2], up);
    assert_eq!(tree.roots[2], poseidon(&up, &zeros(2)));
}

#[test]
fn leaf_outside_the_field_is_refused() {
    let mut tree = PoseidonMerkleTree::new(3).unwrap();
    tree.insert(&[1u8; 32]).unwrap();
    let before = tree.clone();
    assert_eq!(tree.insert(&[0xffu8; 32]), Err(PoseidonMerkleTreeError::InvalidLeaf));
    assert_eq!(tree, before);
}
