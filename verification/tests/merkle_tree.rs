use vortex::field::Fr;
use vortex::merkle_tree::{capacity, MerkleError, Path, SparseMerkleTree};
use vortex::poseidon_opt::PoseidonOptimized;

const EMPTY_LEAF: &str = vortex::constants::ZERO_VALUE;

fn zero_value() -> Fr {
    Fr::parse(EMPTY_LEAF).expect("the empty leaf is a field element")
}

fn pairs(n: u64) -> Vec<(Fr, Fr)> {
    (0..n).map(|i| (Fr::from_u64(2 * i + 1), Fr::from_u64(2 * i + 2))).collect()
}

#[test]
fn test_sparse_merkle_tree_nova_style() {
    let hasher = PoseidonOptimized::new_t3();
    let empty_leaf = zero_value();

    let leaf_pairs = vec![
        (Fr::from_u64(1), Fr::from_u64(2)),
        (Fr::from_u64(3), Fr::from_u64(4)),
    ];

    let tree = SparseMerkleTree::<4>::new(&leaf_pairs, &hasher, &empty_leaf).unwrap();
    let root = tree.root();

    println!("Tree root: {}", root.to_decimal());
    println!("Tree has {} leaves", tree.len());

    let path = tree.generate_membership_proof(0).unwrap();
    let leaf = Fr::from_u64(1);

    assert!(path.check_membership(&root, &leaf, &hasher).unwrap());
    println!("✓ Path verification successful");
}

#[test]
fn test_bulk_insert() {
    let hasher = PoseidonOptimized::new_t3();
    let empty_leaf = zero_value();

    let mut tree = SparseMerkleTree::<4>::new_empty(&hasher, &empty_leaf);

    let leaves = vec![
        Fr::from_u64(10),
        Fr::from_u64(20),
        Fr::from_u64(30),
        Fr::from_u64(40),
    ];

    tree.bulk_insert(&leaves, &hasher).unwrap();

    assert_eq!(tree.len(), 4);
    println!("✓ Bulk insert successful");
}

#[test]
fn test_single_insert_backward_compat() {
    let hasher = PoseidonOptimized::new_t3();
    let empty_leaf = zero_value();

    let mut tree = SparseMerkleTree::<4>::new_empty(&hasher, &empty_leaf);
    tree.insert(Fr::from_u64(100), &hasher).unwrap();

    assert_eq!(tree.len(), 2);
    println!("✓ Single insert (backward compat) successful");
}

#[test]
fn test_tree_full() {
    let hasher = PoseidonOptimized::new_t3();
    let empty_leaf = zero_value();

    let mut tree = SparseMerkleTree::<2>::new_empty(&hasher, &empty_leaf);

    tree.insert_pair(Fr::from_u64(1), Fr::from_u64(2), &hasher)
        .unwrap();
    tree.insert_pair(Fr::from_u64(3), Fr::from_u64(4), &hasher)
        .unwrap();

    assert!(tree.is_full());

    let result = tree.insert_pair(Fr::from_u64(5), Fr::from_u64(6), &hasher);
    assert!(result.is_err());
    println!("✓ Tree full check successful");
}

#[test]
fn test_path_roundtrip_all_leaves_native() {
    let hasher = PoseidonOptimized::new_t3();
    let empty_leaf = zero_value();

    let leaf_pairs = vec![
        (Fr::from_u64(1), Fr::from_u64(2)),
        (Fr::from_u64(3), Fr::from_u64(4)),
        (Fr::from_u64(5), Fr::from_u64(6)),
        (Fr::from_u64(7), Fr::from_u64(8)),
    ];

    let tree = SparseMerkleTree::<4>::new(&leaf_pairs, &hasher, &empty_leaf).unwrap();
    let root = tree.root();

    for (index, leaf) in tree.leaves().iter().enumerate() {
        let path = tree.generate_membership_proof(index).unwrap();
        let recomputed_root = path.calculate_root(leaf, &hasher).unwrap();

        assert_eq!(
            root, recomputed_root,
            "Recomputed root mismatch for leaf index {}",
            index
        );
        assert!(path.check_membership(&root, leaf, &hasher).unwrap());
    }
}

/// The root as a contract that keeps only the cached left children computes
/// it, pair by pair.
fn move_style_root<const N: usize>(
    leaf_pairs: &[(Fr, Fr)],
    hasher: &PoseidonOptimized,
    empty_leaf: &Fr,
) -> Fr {
    assert!(N >= 2);

    let mut empty_subtree_hashes = vec![Fr::zero(); N + 1];
    empty_subtree_hashes[0] = *empty_leaf;
    let mut h = *empty_leaf;
    for hash in empty_subtree_hashes.iter_mut().skip(1).take(N) {
        h = hasher.hash2(&h, &h);
        *hash = h;
    }

    let mut subtrees = vec![Fr::zero(); N];
    subtrees.copy_from_slice(&empty_subtree_hashes[..N]);

    let mut next_index: u64 = 0;
    let mut root = empty_subtree_hashes[N];

    for (commitment0, commitment1) in leaf_pairs {
        assert!((1u64 << (N as u32)) > next_index);

        let mut current_index = next_index / 2;
        let mut current_level_hash = hasher.hash2(commitment0, commitment1);

        for i in 1..N {
            let subtree = &mut subtrees[i];
            let (left, right) = if current_index % 2 == 0 {
                *subtree = current_level_hash;
                (current_level_hash, empty_subtree_hashes[i])
            } else {
                (*subtree, current_level_hash)
            };

            current_level_hash = hasher.hash2(&left, &right);
            current_index /= 2;
        }

        next_index += 2;
        root = current_level_hash;
    }

    root
}

#[test]
fn test_roots_match_move_style_reference_n4() {
    let hasher = PoseidonOptimized::new_t3();
    let empty_leaf = zero_value();

    let leaf_pairs = vec![
        (Fr::from_u64(1), Fr::from_u64(2)),
        (Fr::from_u64(3), Fr::from_u64(4)),
        (Fr::from_u64(5), Fr::from_u64(6)),
    ];

    let rust_tree = SparseMerkleTree::<4>::new(&leaf_pairs, &hasher, &empty_leaf).unwrap();
    let rust_root = rust_tree.root();

    let move_root = move_style_root::<4>(&leaf_pairs, &hasher, &empty_leaf);

    assert_eq!(rust_root, move_root, "Rust root != Move-style root");
    println!("✓ Rust root matches Move root exactly");
}

#[test]
fn roots_match_the_recurrence_for_every_number_of_pairs() {
    let hasher = PoseidonOptimized::new_t3();
    let empty_leaf = zero_value();
    for n in 1..=4u64 {
        let leaf_pairs = pairs(n);
        let tree = SparseMerkleTree::<3>::new(&leaf_pairs, &hasher, &empty_leaf).unwrap();
        assert_eq!(tree.root(), move_style_root::<3>(&leaf_pairs, &hasher, &empty_leaf));
    }
}

#[test]
fn every_generated_path_leads_to_the_root() {
    let hasher = PoseidonOptimized::new_t3();
    let empty_leaf = zero_value();
    for n in 1..=4u64 {
        let tree = SparseMerkleTree::<3>::new(&pairs(n), &hasher, &empty_leaf).unwrap();
        for index in 0..tree.len() {
            let path = tree.generate_membership_proof(index).unwrap();
            let leaf = tree.leaves()[index];
            assert_eq!(path.calculate_root(&leaf, &hasher).unwrap(), tree.root());
            assert_eq!(tree.verify_path(index, &path), Ok(true));
        }
    }
}

#[test]
fn root_is_the_hash_of_the_whole_tree() {
    let hasher = PoseidonOptimized::new_t3();
    let empty_leaf = zero_value();
    let l = [Fr::from_u64(5), Fr::from_u64(6), Fr::from_u64(7), Fr::from_u64(8)];
    let tree =
        SparseMerkleTree::<2>::new(&[(l[0], l[1]), (l[2], l[3])], &hasher, &empty_leaf).unwrap();
    let expected = hasher.hash2(&hasher.hash2(&l[0], &l[1]), &hasher.hash2(&l[2], &l[3]));
    assert_eq!(tree.root(), expected);

    let half = SparseMerkleTree::<2>::new(&[(l[0], l[1])], &hasher, &empty_leaf).unwrap();
    let empty_1 = hasher.hash2(&empty_leaf, &empty_leaf);
    assert_eq!(half.root(), hasher.hash2(&hasher.hash2(&l[0], &l[1]), &empty_1));
}

#[test]
fn empty_tree_has_the_last_empty_hash_as_root() {
    let hasher = PoseidonOptimized::new_t3();
    let empty_leaf = zero_value();
    let tree = SparseMerkleTree::<3>::new_empty(&hasher, &empty_leaf);
    let e1 = hasher.hash2(&empty_leaf, &empty_leaf);
    let e2 = hasher.hash2(&e1, &e1);
    assert_eq!(tree.root(), e2);
    assert!(tree.is_empty());
    assert!(!tree.is_full());
    assert_eq!(tree.len(), 0);
    let one = SparseMerkleTree::<1>::new_empty(&hasher, &empty_leaf);
    assert_eq!(one.root(), empty_leaf);
}

#[test]
fn generated_path_holds_the_children_of_each_ancestor() {
    let hasher = PoseidonOptimized::new_t3();
    let empty_leaf = zero_value();
    let l: Vec<Fr> = (1..=6u64).map(Fr::from_u64).collect();
    let tree = SparseMerkleTree::<3>::new(
        &[(l[0], l[1]), (l[2], l[3]), (l[4], l[5])],
        &hasher,
        &empty_leaf,
    )
    .unwrap();
    let e1 = hasher.hash2(&empty_leaf, &empty_leaf);
    let p01 = hasher.hash2(&l[0], &l[1]);
    let p23 = hasher.hash2(&l[2], &l[3]);
    let p45 = hasher.hash2(&l[4], &l[5]);
    let left = hasher.hash2(&p01, &p23);
    let right = hasher.hash2(&p45, &e1);

    let path = tree.generate_membership_proof(3).unwrap();
    assert_eq!(path.path, [(l[2], l[3]), (p01, p23), (left, right)]);
    let path = tree.generate_membership_proof(4).unwrap();
    assert_eq!(path.path, [(l[4], l[5]), (p45, e1), (left, right)]);
    assert_eq!(tree.root(), hasher.hash2(&left, &right));
}

#[test]
fn membership_proof_of_a_missing_leaf_is_refused() {
    let hasher = PoseidonOptimized::new_t3();
    let empty_leaf = zero_value();
    let tree = SparseMerkleTree::<3>::new(&pairs(1), &hasher, &empty_leaf).unwrap();
    assert_eq!(
        tree.generate_membership_proof(2).unwrap_err(),
        MerkleError::IndexOutOfBounds { index: 2, len: 2 }
    );
    assert_eq!(tree.verify_path(2, &Path::<3>::empty()), Ok(false));
    assert_eq!(tree.verify_path(0, &Path::<3>::empty()), Ok(false));
}

#[test]
fn full_tree_refuses_and_stays_as_it_is() {
    let hasher = PoseidonOptimized::new_t3();
    let empty_leaf = zero_value();
    let mut tree = SparseMerkleTree::<1>::new_empty(&hasher, &empty_leaf);
    tree.insert_pair(Fr::from_u64(1), Fr::from_u64(2), &hasher).unwrap();
    let root = tree.root();
    assert_eq!(
        tree.insert_pair(Fr::from_u64(3), Fr::from_u64(4), &hasher),
        Err(MerkleError::TreeFull { capacity: 2 })
    );
    assert_eq!(tree.insert(Fr::from_u64(3), &hasher), Err(MerkleError::TreeFull { capacity: 2 }));
    assert_eq!(tree.len(), 2);
    assert_eq!(tree.root(), root);
    assert!(SparseMerkleTree::<1>::new(&pairs(2), &hasher, &empty_leaf).is_err());
}

#[test]
fn batch_stops_at_the_first_pair_that_does_not_fit() {
    let hasher = PoseidonOptimized::new_t3();
    let empty_leaf = zero_value();
    let mut tree = SparseMerkleTree::<2>::new_empty(&hasher, &empty_leaf);
    assert_eq!(
        tree.insert_batch(&pairs(3), &hasher),
        Err(MerkleError::TreeFull { capacity: 4 })
    );
    assert_eq!(tree.len(), 4);
    let whole = SparseMerkleTree::<2>::new(&pairs(2), &hasher, &empty_leaf).unwrap();
    assert_eq!(tree.root(), whole.root());
}

#[test]
fn odd_number_of_leaves_is_refused() {
    let hasher = PoseidonOptimized::new_t3();
    let empty_leaf = zero_value();
    let mut tree = SparseMerkleTree::<3>::new_empty(&hasher, &empty_leaf);
    let root = tree.root();
    let leaves = [Fr::from_u64(1), Fr::from_u64(2), Fr::from_u64(3)];
    assert_eq!(tree.bulk_insert(&leaves, &hasher), Err(MerkleError::OddLeafCount));
    assert_eq!(tree.len(), 0);
    assert_eq!(tree.root(), root);
}

#[test]
fn single_insert_pairs_the_leaf_with_the_empty_leaf() {
    let hasher = PoseidonOptimized::new_t3();
    let empty_leaf = zero_value();
    let mut tree = SparseMerkleTree::<3>::new_empty(&hasher, &empty_leaf);
    tree.insert(Fr::from_u64(100), &hasher).unwrap();
    assert_eq!(tree.leaves(), &[Fr::from_u64(100), empty_leaf]);
    let other =
        SparseMerkleTree::<3>::new(&[(Fr::from_u64(100), empty_leaf)], &hasher, &empty_leaf)
            .unwrap();
    assert_eq!(tree.root(), other.root());
}

#[test]
fn index_is_read_from_the_sides_of_the_path() {
    let hasher = PoseidonOptimized::new_t3();
    let empty_leaf = zero_value();
    let tree = SparseMerkleTree::<3>::new(&pairs(4), &hasher, &empty_leaf).unwrap();
    let root = tree.root();
    for index in 0..tree.len() {
        let path = tree.generate_membership_proof(index).unwrap();
        let leaf = tree.leaves()[index];
        assert_eq!(
            path.get_index(&root, &leaf, &hasher),
            Ok(Fr::from_u64(index as u64))
        );
    }
    let path = tree.generate_membership_proof(0).unwrap();
    assert_eq!(
        path.get_index(&root, &Fr::from_u64(99), &hasher),
        Err(MerkleError::NotAMember)
    );
}

#[test]
fn capacity_is_two_to_the_height() {
    assert_eq!(capacity(0), Some(1));
    assert_eq!(capacity(4), Some(16));
    assert_eq!(capacity(63), Some(1usize << 63));
    assert_eq!(capacity(64), None);
}

#[test]
fn empty_path_is_all_zero() {
    let path = Path::<4>::empty();
    assert_eq!(path.path, [(Fr::zero(), Fr::zero()); 4]);
    let hasher = PoseidonOptimized::new_t3();
    let z = Fr::zero();
    let h = hasher.hash2(&z, &z);
    let mut expected = h;
    for _ in 1..4 {
        expected = hasher.hash2(&z, &expected);
    }
    assert_eq!(path.calculate_root(&z, &hasher), Ok(expected));
}
