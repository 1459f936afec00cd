//! The mathematical model of the sparse Merkle tree.
//!
//! A tree state is abstracted as a partial map from leaf index to field
//! value; a missing index counts as the zero element. `subtree_v` is the
//! dense full-tree fold the engine must agree with: at height zero it reads
//! the leaf, above that it hashes the two child subtrees.
use vstd::prelude::*;
use vstd::arithmetic::power2::{pow2, lemma_pow2_adds, lemma_pow2_pos};
use vstd::arithmetic::div_mod::{lemma_fundamental_div_mod, lemma_div_denominator};
use crate::params::{PoseidonParams, p_of};
use crate::poseidon::h2_v;

verus! {

/// The value of leaf `i`: a stored value, or zero where nothing is stored.
pub open spec fn leaf_of(lv: Map<nat, nat>, i: nat) -> nat {
    if lv.contains_key(i) {
        lv[i]
    } else {
        0
    }
}

/// The hash of the all-zero subtree of height `h`.
pub open spec fn empty_v(p: &PoseidonParams, h: nat) -> nat
    decreases h,
{
    if h == 0 {
        0
    } else {
        h2_v(p, empty_v(p, (h - 1) as nat), empty_v(p, (h - 1) as nat))
    }
}

/// The dense subtree hash at height `h`, position `idx`.
pub open spec fn subtree_v(p: &PoseidonParams, lv: Map<nat, nat>, h: nat, idx: nat) -> nat
    decreases h,
{
    if h == 0 {
        leaf_of(lv, idx)
    } else {
        h2_v(
            p,
            subtree_v(p, lv, (h - 1) as nat, 2 * idx),
            subtree_v(p, lv, (h - 1) as nat, 2 * idx + 1),
        )
    }
}

/// Every leaf under `(h, idx)` is zero.
pub open spec fn region_clear(lv: Map<nat, nat>, h: nat, idx: nat) -> bool {
    forall|i: nat| idx * pow2(h) <= i < (idx + 1) * pow2(h) ==> leaf_of(lv, i) == 0
}

/// Some leaf of the region is stored in the map.
pub open spec fn region_has_stored(lv: Map<nat, nat>, h: nat, idx: nat) -> bool {
    exists|x: nat| idx * pow2(h) <= x < (idx + 1) * pow2(h) && lv.contains_key(x)
}

/// A leaf lies under `(h, idx)` exactly when its index shifted down is `idx`.
pub proof fn lemma_region_char(h: nat, idx: nat, i: nat)
    ensures
        (idx * pow2(h) <= i < (idx + 1) * pow2(h)) <==> (i / pow2(h) == idx),
{
    let ph = pow2(h) as int;
    lemma_pow2_pos(h);
    lemma_fundamental_div_mod(i as int, ph);
    if idx * pow2(h) <= i < (idx + 1) * pow2(h) {
        assert((idx + 1) * ph == idx * ph + ph) by (nonlinear_arith);
        assert(i as int == ph * (idx as int) + (i - idx * ph)) by (nonlinear_arith);
        assert(i as int / ph == idx) by (nonlinear_arith)
            requires
                i as int == ph * (i as int / ph) + (i as int) % ph,
                0 <= (i as int) % ph < ph,
                i as int == ph * (idx as int) + (i - (idx as int) * ph),
                0 <= i - (idx as int) * ph < ph,
        ;
    }
    if i / pow2(h) == idx {
        assert((idx as int) * ph == ph * (idx as int)) by (nonlinear_arith);
        assert((idx + 1) * ph == idx * ph + ph) by (nonlinear_arith);
    }
}

/// The left and right child regions partition the parent region.
pub proof fn lemma_region_children(h: nat, idx: nat)
    requires
        h >= 1,
    ensures
        idx * pow2(h) == (2 * idx) * pow2((h - 1) as nat),
        (idx + 1) * pow2(h) == (2 * idx + 2) * pow2((h - 1) as nat),
        (2 * idx + 1) * pow2((h - 1) as nat) == (2 * idx) * pow2((h - 1) as nat) + pow2(
            (h - 1) as nat,
        ),
        (2 * idx + 2) * pow2((h - 1) as nat) == (2 * idx + 1) * pow2((h - 1) as nat) + pow2(
            (h - 1) as nat,
        ),
{
    lemma_pow2_adds(1, (h - 1) as nat);
    assert(pow2(1) == 2) by {
        vstd::arithmetic::power2::lemma2_to64();
    }
    let q = pow2((h - 1) as nat) as int;
    assert((idx as int) * (2 * q) == (2 * idx) * q) by (nonlinear_arith);
    assert((idx + 1) * (2 * q) == (2 * idx + 2) * q) by (nonlinear_arith);
    assert((2 * idx + 1) * q == (2 * idx) * q + q) by (nonlinear_arith);
    assert((2 * idx + 2) * q == (2 * idx + 1) * q + q) by (nonlinear_arith);
}

/// A subtree whose region is clear hashes to the empty constant.
pub proof fn lemma_subtree_clear(p: &PoseidonParams, lv: Map<nat, nat>, h: nat, idx: nat)
    requires
        region_clear(lv, h, idx),
    ensures
        subtree_v(p, lv, h, idx) == empty_v(p, h),
    decreases h,
{
    if h == 0 {
        lemma_pow2_pos(0);
        assert(pow2(0) == 1) by {
            vstd::arithmetic::power2::lemma2_to64();
        }
        assert(idx * pow2(0) == idx) by (nonlinear_arith)
            requires
                pow2(0) == 1,
        ;
        assert((idx + 1) * pow2(0) == idx + 1) by (nonlinear_arith)
            requires
                pow2(0) == 1,
        ;
        assert(idx * pow2(0) <= idx < (idx + 1) * pow2(0));
        assert(leaf_of(lv, idx) == 0);
    } else {
        let hm = (h - 1) as nat;
        lemma_region_children(h, idx);
        lemma_pow2_pos(hm);
        assert(region_clear(lv, hm, 2 * idx)) by {
            assert forall|i: nat|
                (2 * idx) * pow2(hm) <= i < (2 * idx + 1) * pow2(hm) implies leaf_of(lv, i)
                == 0 by {
                assert(idx * pow2(h) <= i < (idx + 1) * pow2(h));
            }
        }
        assert(region_clear(lv, hm, 2 * idx + 1)) by {
            assert forall|i: nat|
                (2 * idx + 1) * pow2(hm) <= i < (2 * idx + 2) * pow2(hm) implies leaf_of(lv, i)
                == 0 by {
                assert(idx * pow2(h) <= i < (idx + 1) * pow2(h));
            }
        }
        lemma_subtree_clear(p, lv, hm, 2 * idx);
        lemma_subtree_clear(p, lv, hm, 2 * idx + 1);
    }
}

/// Two clear child regions make a clear parent region.
pub proof fn lemma_region_merge(lv: Map<nat, nat>, h: nat, idx: nat)
    requires
        h >= 1,
        region_clear(lv, (h - 1) as nat, 2 * idx),
        region_clear(lv, (h - 1) as nat, 2 * idx + 1),
    ensures
        region_clear(lv, h, idx),
{
    let hm = (h - 1) as nat;
    lemma_region_children(h, idx);
    assert forall|i: nat| idx * pow2(h) <= i < (idx + 1) * pow2(h) implies leaf_of(lv, i) == 0 by {
        if i < (2 * idx + 1) * pow2(hm) {
            assert((2 * idx) * pow2(hm) <= i < (2 * idx + 1) * pow2(hm));
        } else {
            assert((2 * idx + 1) * pow2(hm) <= i < (2 * idx + 2) * pow2(hm));
        }
    }
}

/// Subtrees agree wherever the leaves of the region agree.
pub proof fn lemma_subtree_frame(
    p: &PoseidonParams,
    lv1: Map<nat, nat>,
    lv2: Map<nat, nat>,
    h: nat,
    idx: nat,
)
    requires
        forall|i: nat|
            idx * pow2(h) <= i < (idx + 1) * pow2(h) ==> leaf_of(lv1, i) == leaf_of(lv2, i),
    ensures
        subtree_v(p, lv1, h, idx) == subtree_v(p, lv2, h, idx),
    decreases h,
{
    if h == 0 {
        lemma_pow2_pos(0);
        assert(pow2(0) == 1) by {
            vstd::arithmetic::power2::lemma2_to64();
        }
        assert(idx * pow2(0) == idx && (idx + 1) * pow2(0) == idx + 1) by (nonlinear_arith)
            requires
                pow2(0) == 1,
        ;
        assert(leaf_of(lv1, idx) == leaf_of(lv2, idx));
    } else {
        let hm = (h - 1) as nat;
        lemma_region_children(h, idx);
        lemma_pow2_pos(hm);
        assert forall|i: nat|
            (2 * idx) * pow2(hm) <= i < (2 * idx + 1) * pow2(hm) implies leaf_of(lv1, i) == leaf_of(
            lv2,
            i,
        ) by {
            assert(idx * pow2(h) <= i < (idx + 1) * pow2(h));
        }
        assert forall|i: nat|
            (2 * idx + 1) * pow2(hm) <= i < (2 * idx + 2) * pow2(hm) implies leaf_of(lv1, i)
            == leaf_of(lv2, i) by {
            assert(idx * pow2(h) <= i < (idx + 1) * pow2(h));
        }
        lemma_subtree_frame(p, lv1, lv2, hm, 2 * idx);
        lemma_subtree_frame(p, lv1, lv2, hm, 2 * idx + 1);
    }
}

/// Shifting down in two steps is shifting down once.
pub proof fn lemma_div_chain(i: nat, a: nat, b: nat)
    ensures
        (i / pow2(a)) / pow2(b) == i / pow2((a + b) as nat),
{
    lemma_pow2_pos(a);
    lemma_pow2_pos(b);
    lemma_pow2_adds(a, b);
    lemma_div_denominator(i as int, pow2(a) as int, pow2(b) as int);
}

/// Valid width check: a positive power of two and its exponent.
pub open spec fn pow2_log(w: nat) -> Option<nat>
    decreases w,
{
    if w == 0 {
        Option::None
    } else if w == 1 {
        Option::Some(0)
    } else if w % 2 == 1 {
        Option::None
    } else {
        match pow2_log(w / 2) {
            Option::Some(h) => Option::Some((h + 1) as nat),
            Option::None => Option::None,
        }
    }
}

/// The exponent found by `pow2_log` is exact.
pub proof fn lemma_pow2_log(w: nat)
    requires
        pow2_log(w) is Some,
    ensures
        pow2(pow2_log(w)->Some_0) == w,
    decreases w,
{
    if w == 1 {
        assert(pow2(0) == 1) by {
            vstd::arithmetic::power2::lemma2_to64();
        }
    } else {
        lemma_pow2_log(w / 2);
        let h = pow2_log(w / 2)->Some_0;
        lemma_pow2_adds(1, h);
        assert(pow2(1) == 2) by {
            vstd::arithmetic::power2::lemma2_to64();
        }
        lemma_fundamental_div_mod(w as int, 2);
    }
}

} // verus!
