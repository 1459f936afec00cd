//! The library's stated laws, proved once and for all.
//!
//! Each public proof function here writes down one property of the sponge or
//! of the tree in full generality; the scenario-sized counterparts live in
//! the test suite.
use vstd::prelude::*;
use vstd::arithmetic::power2::{pow2, lemma_pow2_pos, lemma_pow2_strictly_increases, lemma2_to64};
use vstd::arithmetic::div_mod::{lemma_small_mod};
use crate::bignum::{lemma_inv_step_bound, lemma_modulus_bounds};
use crate::params::{PoseidonParams, params_wf, p_of};
use crate::poseidon::{fadd, hash_v, absorb_v, init_state_v, perm_v};
use crate::merkle_model::{leaf_of, subtree_v, empty_v, lemma_subtree_frame, lemma_subtree_clear, region_clear, region_has_stored};
use crate::smt::{BigMerkleTree, OperationLeaf, ActionLeaf, apply_ops, apply_op, key_v};

verus! {

/// The engine's root is the dense full-tree hash of its leaves: the tree,
/// however it was filled, matches a naive dense computation.
pub proof fn lemma_root_matches_dense(t: &BigMerkleTree)
    requires
        t.wf(),
    ensures
        t.root@ == subtree_v(&t.params, t.leaves_v(), t.height as nat, 0),
{
}

/// The dense hash reads nothing but the leaf values: two leaf maps that
/// agree pointwise give one root. Inserting disjoint leaves in any order
/// therefore yields one root, since the final map is the same.
pub proof fn lemma_root_depends_on_leaves_alone(
    p: &PoseidonParams,
    lv1: Map<nat, nat>,
    lv2: Map<nat, nat>,
    h: nat,
)
    requires
        forall|i: nat| #[trigger] leaf_of(lv1, i) == leaf_of(lv2, i),
    ensures
        subtree_v(p, lv1, h, 0) == subtree_v(p, lv2, h, 0),
{
    lemma_subtree_frame(p, lv1, lv2, h, 0);
}

/// A freshly created map of leaves is empty and hashes to the empty-tree
/// constant at every height.
pub proof fn lemma_empty_tree_root(p: &PoseidonParams, h: nat)
    ensures
        subtree_v(p, Map::<nat, nat>::empty(), h, 0) == empty_v(p, h),
{
    assert(region_clear(Map::<nat, nat>::empty(), h, 0));
    lemma_subtree_clear(p, Map::<nat, nat>::empty(), h, 0);
}

/// Inserting at an empty position and removing it again restores the leaf
/// map, and with it the root.
pub proof fn lemma_insert_then_remove(
    p: &PoseidonParams,
    lv: Map<nat, nat>,
    h: nat,
    i: nat,
    v: nat,
)
    requires
        !lv.contains_key(i),
    ensures
        lv.insert(i, v).remove(i) == lv,
        subtree_v(p, lv.insert(i, v).remove(i), h, 0) == subtree_v(p, lv, h, 0),
{
    assert(lv.insert(i, v).remove(i) =~= lv);
}

/// Inserting one value twice is the same as inserting it once.
pub proof fn lemma_insert_idempotent(
    p: &PoseidonParams,
    lv: Map<nat, nat>,
    h: nat,
    i: nat,
    v: nat,
)
    ensures
        lv.insert(i, v).insert(i, v) == lv.insert(i, v),
        subtree_v(p, lv.insert(i, v).insert(i, v), h, 0) == subtree_v(p, lv.insert(i, v), h, 0),
{
    assert(lv.insert(i, v).insert(i, v) =~= lv.insert(i, v));
}

/// The sponge is a function of its input sequence: equal inputs give equal
/// digests on every invocation.
pub proof fn lemma_hash_deterministic(p: &PoseidonParams, a: Seq<nat>, b: Seq<nat>)
    requires
        a == b,
    ensures
        hash_v(p, a) == hash_v(p, b),
{
}

/// Every component of a permuted state is an S-box output, hence a canonical
/// residue.
pub proof fn lemma_perm_in_field(p: &PoseidonParams, s: (nat, nat, nat))
    requires
        params_wf(p),
    ensures
        perm_v(p, s).0 < p_of(p),
        perm_v(p, s).1 < p_of(p),
        perm_v(p, s).2 < p_of(p),
{
    reveal(perm_v);
    lemma_modulus_bounds(p.modulus@);
    lemma_pow2_pos(704);
    assert(pow2(1) == 2) by {
        lemma2_to64();
    }
    lemma_pow2_strictly_increases(1, 704);
    let m = p_of(p);
    let s4 = full_rounds_helper(p, s);
    lemma_inv_step_bound(s4.0, m, 1, 0, m);
    lemma_inv_step_bound(s4.1, m, 1, 0, m);
    lemma_inv_step_bound(s4.2, m, 1, 0, m);
}

/// The state fed to the final S-box row of the permutation.
pub open spec fn full_rounds_helper(p: &PoseidonParams, s: (nat, nat, nat)) -> (nat, nat, nat) {
    crate::poseidon::full_rounds_v(
        p,
        crate::poseidon::partial_rounds_v(
            p,
            crate::poseidon::full_rounds_v(p, crate::poseidon::arc3_v(p, s, 0), 3, p.rf as nat),
            3 + 3 * p.rf,
            p.rp as nat,
        ),
        3 + 3 * p.rf + 3 * p.rp,
        (p.rf - 1) as nat,
    )
}

/// Absorbing one element alone and absorbing it padded with an explicit
/// zero add the same values to the sponge state, so the two digests agree:
/// a short final block behaves as if zero-extended to the rate.
pub proof fn lemma_padding_collapse(p: &PoseidonParams, a: nat)
    requires
        params_wf(p),
    ensures
        hash_v(p, seq![a]) == hash_v(p, seq![a, 0nat]),
{
    let m = p_of(p);
    let s = init_state_v(p);
    lemma_perm_in_field(p, (0, 0, 0));
    assert(s.1 < m);
    assert(fadd(s.1, 0, m) == s.1) by {
        lemma_small_mod(s.1, m);
    }
    let one = seq![a];
    let two = seq![a, 0nat];
    assert(one.len() == 1 && two.len() == 2);
    assert(two[0] == a && two[1] == 0);
    assert(two.skip(2) =~= Seq::<nat>::empty());
    assert(absorb_v(p, s, one) == perm_v(p, (fadd(s.0, a, m), s.1, fadd(s.2, p.c2@, m))));
    assert(absorb_v(p, s, two) == absorb_v(
        p,
        perm_v(p, (fadd(s.0, a, m), fadd(s.1, 0, m), fadd(s.2, p.c2@, m))),
        two.skip(2),
    ));
}


/// A batch of insertions only.
pub open spec fn inserts_only(ops: Seq<OperationLeaf>) -> bool {
    forall|j: int|
        0 <= j < ops.len() ==> (#[trigger] ops[j]).action == ActionLeaf::Insert && ops[j].hash
            is Some && ops[j].coord.height == 0
}

/// No two batch entries name one leaf.
pub open spec fn distinct_indices(ops: Seq<OperationLeaf>) -> bool {
    forall|j1: int, j2: int|
        0 <= j1 < j2 < ops.len() ==> (#[trigger] ops[j1]).coord.idx != (
        #[trigger] ops[j2]).coord.idx
}

/// The value an insertion carries.
pub open spec fn op_value(op: OperationLeaf) -> nat {
    match op.hash {
        Option::Some(f) => f@,
        Option::None => 0,
    }
}

/// What a batch of distinct insertions leaves at each position: the carried
/// value where some entry names the position, the old leaf elsewhere.
pub proof fn lemma_apply_inserts_char(lv: Map<nat, nat>, ops: Seq<OperationLeaf>, i: nat)
    requires
        inserts_only(ops),
        distinct_indices(ops),
    ensures
        (forall|j: int| 0 <= j < ops.len() ==> ((#[trigger] ops[j]).coord.idx as nat) != i)
            ==> leaf_of(apply_ops(lv, ops), i) == leaf_of(lv, i),
        forall|j: int|
            0 <= j < ops.len() && ((#[trigger] ops[j]).coord.idx as nat) == i ==> leaf_of(
                apply_ops(lv, ops),
                i,
            ) == op_value(ops[j]),
    decreases ops.len(),
{
    if ops.len() > 0 {
        let rest = ops.skip(1);
        assert forall|j: int|
            0 <= j < rest.len() implies (#[trigger] rest[j]).action == ActionLeaf::Insert
            && rest[j].hash is Some && rest[j].coord.height == 0 by {
            assert(rest[j] == ops[j + 1]);
        }
        assert forall|j1: int, j2: int|
            0 <= j1 < j2 < rest.len() implies (#[trigger] rest[j1]).coord.idx != (
        #[trigger] rest[j2]).coord.idx by {
            assert(rest[j1] == ops[j1 + 1] && rest[j2] == ops[j2 + 1]);
        }
        lemma_apply_inserts_char(apply_op(lv, ops[0]), rest, i);
        let lv1 = apply_op(lv, ops[0]);
        if (ops[0].coord.idx as nat) == i {
            // no later entry touches this position
            assert forall|j: int|
                0 <= j < rest.len() implies ((#[trigger] rest[j]).coord.idx as nat) != i by {
                assert(rest[j] == ops[j + 1]);
                assert(ops[0].coord.idx != ops[j + 1].coord.idx);
            }
            assert(leaf_of(apply_ops(lv, ops), i) == leaf_of(lv1, i));
            assert(leaf_of(lv1, i) == op_value(ops[0]));
            assert forall|j: int|
                0 <= j < ops.len() && ((#[trigger] ops[j]).coord.idx as nat) == i implies leaf_of(
                apply_ops(lv, ops),
                i,
            ) == op_value(ops[j]) by {
                if j > 0 {
                    assert(ops[0].coord.idx != ops[j].coord.idx);
                    assert(false);
                }
            }
        } else {
            assert(leaf_of(lv1, i) == leaf_of(lv, i));
            assert forall|j: int|
                0 <= j < ops.len() && ((#[trigger] ops[j]).coord.idx as nat) == i implies leaf_of(
                apply_ops(lv, ops),
                i,
            ) == op_value(ops[j]) by {
                assert(j >= 1);
                assert(rest[j - 1] == ops[j]);
            }
            if forall|j: int| 0 <= j < ops.len() ==> ((#[trigger] ops[j]).coord.idx as nat) != i {
                assert forall|j: int|
                    0 <= j < rest.len() implies ((#[trigger] rest[j]).coord.idx as nat) != i by {
                    assert(rest[j] == ops[j + 1]);
                }
            }
        }
    }
}

/// Distinct leaves inserted in any order give one root: two insertion
/// batches holding the same entries leave the same leaf values everywhere,
/// and the dense hash reads nothing else.
pub proof fn lemma_insert_order_irrelevant(
    p: &PoseidonParams,
    lv: Map<nat, nat>,
    h: nat,
    ops1: Seq<OperationLeaf>,
    ops2: Seq<OperationLeaf>,
)
    requires
        inserts_only(ops1),
        inserts_only(ops2),
        distinct_indices(ops1),
        distinct_indices(ops2),
        forall|op: OperationLeaf| ops1.contains(op) <==> ops2.contains(op),
    ensures
        subtree_v(p, apply_ops(lv, ops1), h, 0) == subtree_v(p, apply_ops(lv, ops2), h, 0),
{
    assert forall|i: nat| #[trigger]
        leaf_of(apply_ops(lv, ops1), i) == leaf_of(apply_ops(lv, ops2), i) by {
        lemma_apply_inserts_char(lv, ops1, i);
        lemma_apply_inserts_char(lv, ops2, i);
        if exists|j: int| 0 <= j < ops1.len() && ((#[trigger] ops1[j]).coord.idx as nat) == i {
            let j = choose|j: int|
                0 <= j < ops1.len() && ((#[trigger] ops1[j]).coord.idx as nat) == i;
            let op = ops1[j];
            assert(ops1.contains(op));
            assert(ops2.contains(op));
            let j2 = choose|j2: int| 0 <= j2 < ops2.len() && ops2[j2] == op;
            assert((ops2[j2].coord.idx as nat) == i);
            assert(leaf_of(apply_ops(lv, ops1), i) == op_value(op));
            assert(leaf_of(apply_ops(lv, ops2), i) == op_value(op));
        } else {
            assert(forall|j: int|
                0 <= j < ops1.len() ==> ((#[trigger] ops1[j]).coord.idx as nat) != i);
            assert forall|j2: int|
                0 <= j2 < ops2.len() implies ((#[trigger] ops2[j2]).coord.idx as nat) != i by {
                if (ops2[j2].coord.idx as nat) == i {
                    let op = ops2[j2];
                    assert(ops2.contains(op));
                    assert(ops1.contains(op));
                    let j1 = choose|j1: int| 0 <= j1 < ops1.len() && ops1[j1] == op;
                    assert((ops1[j1].coord.idx as nat) == i);
                    assert(false);
                }
            }
            assert(leaf_of(apply_ops(lv, ops1), i) == leaf_of(lv, i));
            assert(leaf_of(apply_ops(lv, ops2), i) == leaf_of(lv, i));
        }
    }
    lemma_subtree_frame(p, apply_ops(lv, ops1), apply_ops(lv, ops2), h, 0);
}


/// Presence marks are witnessed: a coordinate marked non-empty has a stored
/// leaf somewhere below it, and one not marked roots an all-zero subtree.
pub proof fn lemma_presence_is_witnessed(tr: &BigMerkleTree, h: nat, i: nat)
    requires
        tr.wf(),
        tr.coord_ok(h, i),
    ensures
        tr.present_at(h, i) ==> region_has_stored(tr.leaves_v(), h, i),
        !tr.present_at(h, i) ==> region_clear(tr.leaves_v(), h, i),
{
    assert(tr.w2r_at(h, i));
    assert(tr.w2_at(h, i));
}

/// With no leaf stored at all the presence set is empty: in particular,
/// removing the only inserted leaf empties it again.
pub proof fn lemma_empty_leaves_empty_presence(tr: &BigMerkleTree)
    requires
        tr.wf(),
        tr.database@ == Map::<u64, crate::field::Fp>::empty(),
    ensures
        tr.present_node@ == Set::<u64>::empty(),
{
    assert forall|k: u64| !(#[trigger] tr.present_node@.contains(k)) by {
        if tr.present_node@.contains(k) {
            let ji = choose|j: nat, i: nat| tr.coord_ok(j, i) && k == key_v(j, i) as u64;
            assert(tr.present_at(ji.0, ji.1));
            assert(tr.w2r_at(ji.0, ji.1));
            let x = choose|x: nat|
                ji.1 * pow2(ji.0) <= x < (ji.1 + 1) * pow2(ji.0) && tr.leaves_v().contains_key(x);
            assert(tr.database@.contains_key(x as u64));
            assert(false);
        }
    }
    assert(tr.present_node@ =~= Set::<u64>::empty());
}

} // verus!
