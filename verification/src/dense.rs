//! The dense reference computation: folding a full vector of leaves up to
//! the root, level by level. The sparse engine is proved against the same
//! mathematical fold, so the two agree by construction.
use vstd::prelude::*;
use vstd::arithmetic::power2::{pow2, lemma_pow2_adds, lemma_pow2_pos, lemma2_to64};
use crate::field::{Fp, fp_wf};
use crate::params::{PoseidonParams, params_wf, p_of};
use crate::poseidon::poseidon_hash_pair;
use crate::merkle_model::{leaf_of, subtree_v};

verus! {

/// The leaf map described by a dense vector of values.
pub open spec fn vec_leaf_map(s: Seq<Fp>) -> Map<nat, nat> {
    Map::new(|i: nat| i < s.len(), |i: nat| s[i as int]@)
}

/// Folds a full vector of `2^height` leaves to the root of the dense tree.
pub fn dense_root(p: &PoseidonParams, leaves: &Vec<Fp>, height: usize) -> (r: Fp)
    requires
        params_wf(p),
        height <= 30,
        leaves.len() == pow2(height as nat),
        forall|i: int| 0 <= i < leaves.len() ==> fp_wf(#[trigger] leaves@[i], p_of(p)),
    ensures
        fp_wf(r, p_of(p)),
        r@ == subtree_v(p, vec_leaf_map(leaves@), height as nat, 0),
{
    let ghost lm = vec_leaf_map(leaves@);
    let mut cur: Vec<Fp> = Vec::new();
    let mut i: usize = 0;
    while i < leaves.len()
        invariant
            i <= leaves.len(),
            cur.len() == i,
            forall|j: int| 0 <= j < leaves.len() ==> fp_wf(#[trigger] leaves@[j], p_of(p)),
            forall|j: int| 0 <= j < i ==> fp_wf(#[trigger] cur@[j], p_of(p)) && cur@[j]@
                == leaves@[j]@,
        decreases leaves.len() - i,
    {
        cur.push(leaves[i].dup());
        i += 1;
    }
    let mut h: usize = 0;
    proof {
        assert forall|j: int| 0 <= j < cur.len() implies cur@[j]@ == subtree_v(
            p,
            lm,
            0,
            j as nat,
        ) by {
            assert(leaf_of(lm, j as nat) == leaves@[j]@);
        }
    }
    while h < height
        invariant
            params_wf(p),
            h <= height,
            height <= 30,
            cur.len() == pow2((height - h) as nat),
            forall|j: int| 0 <= j < cur.len() ==> fp_wf(#[trigger] cur@[j], p_of(p)),
            forall|j: int| 0 <= j < cur.len() ==> (#[trigger] cur@[j])@ == subtree_v(
                p,
                lm,
                h as nat,
                j as nat,
            ),
        decreases height - h,
    {
        proof {
            lemma_pow2_adds((height - h - 1) as nat, 1);
            assert(pow2(1) == 2) by {
                lemma2_to64();
            }
            lemma_pow2_pos((height - h - 1) as nat);
        }
        let half = cur.len() / 2;
        proof {
            assert(half == pow2((height - h - 1) as nat));
        }
        let mut next: Vec<Fp> = Vec::new();
        let mut j: usize = 0;
        while j < half
            invariant
                params_wf(p),
                h < height,
                height <= 30,
                cur.len() == pow2((height - h) as nat),
                cur.len() == 2 * half,
                j <= half,
                next.len() == j,
                forall|k: int| 0 <= k < cur.len() ==> fp_wf(#[trigger] cur@[k], p_of(p)),
                forall|k: int| 0 <= k < cur.len() ==> (#[trigger] cur@[k])@ == subtree_v(
                    p,
                    lm,
                    h as nat,
                    k as nat,
                ),
                forall|k: int| 0 <= k < j ==> fp_wf(#[trigger] next@[k], p_of(p)),
                forall|k: int| 0 <= k < j ==> (#[trigger] next@[k])@ == subtree_v(
                    p,
                    lm,
                    (h + 1) as nat,
                    k as nat,
                ),
            decreases half - j,
        {
            let d = poseidon_hash_pair(p, &cur[2 * j], &cur[2 * j + 1]);
            proof {
                assert(subtree_v(p, lm, (h + 1) as nat, j as nat) == crate::poseidon::h2_v(
                    p,
                    subtree_v(p, lm, h as nat, (2 * j) as nat),
                    subtree_v(p, lm, h as nat, (2 * j + 1) as nat),
                ));
            }
            next.push(d);
            j += 1;
        }
        cur = next;
        h += 1;
    }
    proof {
        assert(cur.len() == pow2(0));
        assert(pow2(0) == 1) by {
            lemma2_to64();
        }
    }
    cur[0].dup()
}

} // verus!
