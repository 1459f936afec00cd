//! Scenario tests of the tree engine: empty roots, insert-remove round
//! trips, idempotence, order independence and argument checking.
use poseidon_smt::dense::dense_root;
use poseidon_smt::field::Fp;
use poseidon_smt::params::mnt4_753_parameters;
use poseidon_smt::smt::{ActionLeaf, BigMerkleTree, Coord, Error, OperationLeaf};

fn fresh_tree(width: usize) -> BigMerkleTree {
    BigMerkleTree::new(
        width,
        String::from("./db_leaves"),
        String::from("./db_cache"),
        mnt4_753_parameters(),
    )
    .unwrap()
}

#[test]
fn empty_tree_root_is_empty_constant() {
    let smt = fresh_tree(32);
    assert!(smt.root.equals(&smt.empty_table[5]));
    // and it matches the dense fold of thirty-two zero leaves
    let params = mnt4_753_parameters();
    let mut leaves = Vec::new();
    for _ in 0..32 {
        leaves.push(Fp::zero());
    }
    let expected = dense_root(&params, &leaves, 5);
    assert!(smt.root.equals(&expected));
}

#[test]
fn insert_then_remove_restores_empty_root() {
    let mut smt = fresh_tree(32);
    let before = smt.root.dup();
    smt.insert_leaf(Coord { height: 0, idx: 0 }, Fp::from_u64(1));
    assert!(!smt.root.equals(&before));
    assert!(!smt.present_node.is_empty());
    smt.remove_leaf(Coord { height: 0, idx: 0 });
    assert!(smt.root.equals(&before));
    assert!(smt.root.equals(&smt.empty_table[5]));
    // the presence bookkeeping fully undoes the insert
    assert!(smt.present_node.is_empty());
}

#[test]
fn insert_then_remove_restores_busy_root() {
    let mut smt = fresh_tree(32);
    smt.insert_leaf(Coord { height: 0, idx: 7 }, Fp::from_u64(11));
    smt.insert_leaf(Coord { height: 0, idx: 20 }, Fp::from_u64(12));
    let before = smt.root.dup();
    smt.insert_leaf(Coord { height: 0, idx: 3 }, Fp::from_u64(7));
    smt.remove_leaf(Coord { height: 0, idx: 3 });
    assert!(smt.root.equals(&before));
}

#[test]
fn repeated_insert_is_idempotent() {
    let mut smt = fresh_tree(32);
    smt.insert_leaf(Coord { height: 0, idx: 5 }, Fp::from_u64(9));
    let once = smt.root.dup();
    smt.insert_leaf(Coord { height: 0, idx: 5 }, Fp::from_u64(9));
    assert!(smt.root.equals(&once));
}

#[test]
fn insert_order_does_not_matter() {
    let positions: [usize; 4] = [0, 9, 16, 29];
    let values: [u64; 4] = [1, 2, 10, 3];
    let mut forward = fresh_tree(32);
    for k in 0..4 {
        forward.insert_leaf(
            Coord { height: 0, idx: positions[k] },
            Fp::from_u64(values[k]),
        );
    }
    let mut backward = fresh_tree(32);
    for k in (0..4).rev() {
        backward.insert_leaf(
            Coord { height: 0, idx: positions[k] },
            Fp::from_u64(values[k]),
        );
    }
    assert!(forward.root.equals(&backward.root));
}

#[test]
fn batch_matches_single_operations() {
    let mut ops: Vec<OperationLeaf> = Vec::new();
    ops.push(OperationLeaf {
        coord: Coord { height: 0, idx: 2 },
        action: ActionLeaf::Insert,
        hash: Some(Fp::from_u64(5)),
    });
    ops.push(OperationLeaf {
        coord: Coord { height: 0, idx: 3 },
        action: ActionLeaf::Insert,
        hash: Some(Fp::from_u64(6)),
    });
    ops.push(OperationLeaf {
        coord: Coord { height: 0, idx: 2 },
        action: ActionLeaf::Remove,
        hash: None,
    });
    let mut batched = fresh_tree(8);
    let root = batched.process_leaves_normal(ops);
    let mut single = fresh_tree(8);
    single.insert_leaf(Coord { height: 0, idx: 2 }, Fp::from_u64(5));
    single.insert_leaf(Coord { height: 0, idx: 3 }, Fp::from_u64(6));
    single.remove_leaf(Coord { height: 0, idx: 2 });
    assert!(root.equals(&single.root));
    assert!(batched.root.equals(&single.root));
}

#[test]
fn removing_an_empty_leaf_keeps_the_root() {
    let mut smt = fresh_tree(16);
    smt.insert_leaf(Coord { height: 0, idx: 1 }, Fp::from_u64(4));
    let before = smt.root.dup();
    let present_before = smt.present_node.len();
    let cached_before = smt.db_cache.len();
    smt.remove_leaf(Coord { height: 0, idx: 9 });
    assert!(smt.root.equals(&before));
    // nothing was stored there, so neither bookkeeping structure moved
    assert_eq!(smt.present_node.len(), present_before);
    assert_eq!(smt.db_cache.len(), cached_before);
}

#[test]
fn sweep_at_depth_zero_changes_nothing() {
    let mut smt = fresh_tree(8);
    let c = Coord { height: 2, idx: 1 };
    smt.insert_to_cache(c, Fp::from_u64(7));
    smt.remove_subtree_from_cache(c, 0);
    assert!(smt.contains_key_in_cache(c));
}

#[test]
fn sweep_keeps_the_entry_over_two_present_leaves() {
    // with both probed leaf positions marked present the shallow sweep
    // leaves the inspected entry in place; with one absent it drops it
    let mut smt = fresh_tree(8);
    smt.insert_leaf(Coord { height: 0, idx: 2 }, Fp::from_u64(1));
    smt.insert_leaf(Coord { height: 0, idx: 3 }, Fp::from_u64(2));
    let c = Coord { height: 1, idx: 1 };
    assert!(smt.contains_key_in_cache(c));
    smt.remove_subtree_from_cache(c, 2);
    assert!(smt.contains_key_in_cache(c));
    smt.remove_leaf(Coord { height: 0, idx: 3 });
    // the walk itself already dropped the pair's entry when it became lopsided
    assert!(!smt.contains_key_in_cache(c));
}

#[test]
fn widths_must_be_powers_of_two() {
    let params = mnt4_753_parameters();
    let r = BigMerkleTree::new(
        24,
        String::from("./db_leaves"),
        String::from("./db_cache"),
        params,
    );
    assert!(matches!(r, Err(Error::InvalidArgument)));
    let r0 = BigMerkleTree::new(
        0,
        String::from("./db_leaves"),
        String::from("./db_cache"),
        mnt4_753_parameters(),
    );
    assert!(matches!(r0, Err(Error::InvalidArgument)));
    let r1 = BigMerkleTree::new(
        1,
        String::from("./db_leaves"),
        String::from("./db_cache"),
        mnt4_753_parameters(),
    );
    assert!(matches!(r1, Err(Error::InvalidArgument)));
}

#[test]
fn stale_cache_entries_never_reach_the_root() {
    // fill a pair so its parent is cached, unbalance it, then force the
    // parent to be read as a sibling of a later update path
    let mut smt = fresh_tree(8);
    smt.insert_leaf(Coord { height: 0, idx: 0 }, Fp::from_u64(1));
    smt.insert_leaf(Coord { height: 0, idx: 1 }, Fp::from_u64(2));
    smt.remove_leaf(Coord { height: 0, idx: 1 });
    smt.insert_leaf(Coord { height: 0, idx: 2 }, Fp::from_u64(3));

    let params = mnt4_753_parameters();
    let mut leaves = Vec::new();
    leaves.push(Fp::from_u64(1));
    leaves.push(Fp::zero());
    leaves.push(Fp::from_u64(3));
    for _ in 3..8 {
        leaves.push(Fp::zero());
    }
    let expected = dense_root(&params, &leaves, 3);
    assert!(smt.root.equals(&expected));
}

#[test]
fn storage_adapters_round_trip() {
    let mut smt = fresh_tree(8);
    smt.insert_to_db(3, Fp::from_u64(42));
    let got = smt.get_from_db(3).unwrap();
    assert!(got.equals(&Fp::from_u64(42)));
    let removed = smt.remove_from_db(3).unwrap();
    assert!(removed.equals(&Fp::from_u64(42)));
    assert!(smt.get_from_db(3).is_none());

    let c = Coord { height: 2, idx: 1 };
    smt.insert_to_cache(c, Fp::from_u64(7));
    assert!(smt.contains_key_in_cache(c));
    let cached = smt.get_from_cache(c).unwrap();
    assert!(cached.equals(&Fp::from_u64(7)));
    let gone = smt.remove_from_cache(c).unwrap();
    assert!(gone.equals(&Fp::from_u64(7)));
    assert!(!smt.contains_key_in_cache(c));
}
