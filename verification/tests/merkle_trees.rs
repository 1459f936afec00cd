//! The sparse engine against the dense reference fold, over both scalar
//! fields of the curve cycle.
use poseidon_smt::dense::dense_root;
use poseidon_smt::field::Fp;
use poseidon_smt::params::{mnt4_753_parameters, mnt6_753_parameters, PoseidonParams};
use poseidon_smt::smt::{ActionLeaf, BigMerkleTree, Coord, OperationLeaf};
use rand::{RngCore, SeedableRng};

fn fixed_leaves() -> Vec<Fp> {
    let mut leaves = Vec::new();
    leaves.push(Fp::from_u64(1));
    for _ in 1..9 {
        leaves.push(Fp::zero());
    }
    leaves.push(Fp::from_u64(2));
    for _ in 10..29 {
        leaves.push(Fp::zero());
    }
    leaves.push(Fp::from_u64(3));
    for _ in 30..32 {
        leaves.push(Fp::zero());
    }
    assert_eq!(leaves.len(), 32);
    leaves
}

#[test]
fn compare_merkle_trees_mnt4_1() {
    let params = mnt4_753_parameters();
    let num_leaves = 32;
    let mut leaves_to_process: Vec<OperationLeaf> = Vec::new();
    leaves_to_process.push(OperationLeaf {
        coord: Coord { height: 0, idx: 0 },
        action: ActionLeaf::Insert,
        hash: Some(Fp::from_u64(1)),
    });
    leaves_to_process.push(OperationLeaf {
        coord: Coord { height: 0, idx: 9 },
        action: ActionLeaf::Insert,
        hash: Some(Fp::from_u64(2)),
    });
    leaves_to_process.push(OperationLeaf {
        coord: Coord { height: 0, idx: 16 },
        action: ActionLeaf::Remove,
        hash: Some(Fp::from_u64(3)),
    });
    leaves_to_process.push(OperationLeaf {
        coord: Coord { height: 0, idx: 29 },
        action: ActionLeaf::Insert,
        hash: Some(Fp::from_u64(3)),
    });
    leaves_to_process.push(OperationLeaf {
        coord: Coord { height: 0, idx: 16 },
        action: ActionLeaf::Remove,
        hash: Some(Fp::from_u64(3)),
    });
    let mut smt = BigMerkleTree::new(
        num_leaves,
        String::from("./db_leaves"),
        String::from("./db_cache"),
        mnt4_753_parameters(),
    )
    .unwrap();
    smt.process_leaves_normal(leaves_to_process);

    let leaves = fixed_leaves();
    let expected = dense_root(&params, &leaves, 5);
    assert!(
        expected.equals(&smt.root),
        "Outputs of the Merkle trees for MNT4 do not match."
    );
}

fn random_elements(params: &PoseidonParams, seed: u64, count: usize) -> Vec<Fp> {
    let mut rng = rand_xorshift::XorShiftRng::seed_from_u64(seed);
    let mut out = Vec::new();
    for _ in 0..count {
        let mut limbs = Vec::new();
        for _ in 0..12 {
            limbs.push(rng.next_u64());
        }
        out.push(poseidon_smt::field::fp_from_limbs_reduced(
            limbs,
            &params.modulus,
        ));
    }
    out
}

#[test]
fn compare_merkle_trees_mnt4_2() {
    let params = mnt4_753_parameters();
    let num_leaves = 32;
    let leaves = random_elements(&params, 9174123u64, num_leaves);
    let expected = dense_root(&params, &leaves, 5);

    let mut smt = BigMerkleTree::new(
        num_leaves,
        String::from("./db_leaves"),
        String::from("./db_cache"),
        mnt4_753_parameters(),
    )
    .unwrap();
    for (i, f) in random_elements(&params, 9174123u64, num_leaves)
        .into_iter()
        .enumerate()
    {
        smt.insert_leaf(Coord { height: 0, idx: i }, f);
    }
    assert!(
        expected.equals(&smt.root),
        "Outputs of the Merkle trees for MNT4 do not match."
    );
}

#[test]
fn compare_merkle_trees_mnt4_3() {
    let params = mnt4_753_parameters();
    let num_leaves = 32;
    let leaves = fixed_leaves();
    let expected = dense_root(&params, &leaves, 5);

    let mut smt = BigMerkleTree::new(
        num_leaves,
        String::from("./db_leaves"),
        String::from("./db_cache"),
        mnt4_753_parameters(),
    )
    .unwrap();
    smt.insert_leaf(Coord { height: 0, idx: 0 }, Fp::from_u64(1));
    smt.insert_leaf(Coord { height: 0, idx: 9 }, Fp::from_u64(2));
    smt.insert_leaf(Coord { height: 0, idx: 16 }, Fp::from_u64(10));
    smt.insert_leaf(Coord { height: 0, idx: 29 }, Fp::from_u64(3));
    smt.remove_leaf(Coord { height: 0, idx: 16 });
    assert!(
        expected.equals(&smt.root),
        "Outputs of the Merkle trees for MNT4 do not match."
    );
}

#[test]
fn compare_merkle_trees_mnt6_1() {
    let params = mnt6_753_parameters();
    let num_leaves = 32;
    let mut leaves_to_process: Vec<OperationLeaf> = Vec::new();
    leaves_to_process.push(OperationLeaf {
        coord: Coord { height: 0, idx: 0 },
        action: ActionLeaf::Insert,
        hash: Some(Fp::from_u64(1)),
    });
    leaves_to_process.push(OperationLeaf {
        coord: Coord { height: 0, idx: 9 },
        action: ActionLeaf::Insert,
        hash: Some(Fp::from_u64(2)),
    });
    leaves_to_process.push(OperationLeaf {
        coord: Coord { height: 0, idx: 16 },
        action: ActionLeaf::Remove,
        hash: Some(Fp::from_u64(3)),
    });
    leaves_to_process.push(OperationLeaf {
        coord: Coord { height: 0, idx: 29 },
        action: ActionLeaf::Insert,
        hash: Some(Fp::from_u64(3)),
    });
    leaves_to_process.push(OperationLeaf {
        coord: Coord { height: 0, idx: 16 },
        action: ActionLeaf::Remove,
        hash: Some(Fp::from_u64(3)),
    });
    let mut smt = BigMerkleTree::new(
        num_leaves,
        String::from("./db_leaves"),
        String::from("./db_cache"),
        mnt6_753_parameters(),
    )
    .unwrap();
    smt.process_leaves_normal(leaves_to_process);

    let leaves = fixed_leaves();
    let expected = dense_root(&params, &leaves, 5);
    assert!(
        expected.equals(&smt.root),
        "Outputs of the Merkle trees for MNT4 do not match."
    );
}

#[test]
fn compare_merkle_trees_mnt6_2() {
    let params = mnt4_753_parameters();
    let num_leaves = 32;
    let leaves = random_elements(&params, 9174123u64, num_leaves);
    let expected = dense_root(&params, &leaves, 5);

    let mut smt = BigMerkleTree::new(
        num_leaves,
        String::from("./db_leaves"),
        String::from("./db_cache"),
        mnt4_753_parameters(),
    )
    .unwrap();
    for (i, f) in random_elements(&params, 9174123u64, num_leaves)
        .into_iter()
        .enumerate()
    {
        smt.insert_leaf(Coord { height: 0, idx: i }, f);
    }
    assert!(
        expected.equals(&smt.root),
        "Outputs of the Merkle trees for MNT4 do not match."
    );
}

#[test]
fn compare_merkle_trees_mnt6_3() {
    let params = mnt4_753_parameters();
    let num_leaves = 32;
    let leaves = fixed_leaves();
    let expected = dense_root(&params, &leaves, 5);

    let mut smt = BigMerkleTree::new(
        num_leaves,
        String::from("./db_leaves"),
        String::from("./db_cache"),
        mnt4_753_parameters(),
    )
    .unwrap();
    smt.insert_leaf(Coord { height: 0, idx: 0 }, Fp::from_u64(1));
    smt.insert_leaf(Coord { height: 0, idx: 9 }, Fp::from_u64(2));
    smt.insert_leaf(Coord { height: 0, idx: 16 }, Fp::from_u64(10));
    smt.insert_leaf(Coord { height: 0, idx: 29 }, Fp::from_u64(3));
    smt.remove_leaf(Coord { height: 0, idx: 16 });
    assert!(
        expected.equals(&smt.root),
        "Outputs of the Merkle trees for MNT4 do not match."
    );
}
