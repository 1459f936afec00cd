//! The big sparse Merkle tree: a fixed-height binary tree over a Poseidon
//! hash, storing only its non-trivial parts.
//!
//! The engine keeps a leaf store, a store of "interesting" interior hashes
//! (both subtrees non-trivial), a presence set marking subtrees that are not
//! entirely empty, and a per-operation path cache. Its soundness invariants:
//! a coordinate absent from the presence set roots an all-zero subtree; a
//! present coordinate has a stored leaf below it; a present coordinate with
//! a stored hash stores the true subtree hash; and the running root equals
//! the dense full-tree hash of the current leaves. Each operation also
//! carries a frame: presence bits move only on the updated path, and cache
//! entries only on or right next to it.
use vstd::prelude::*;
use vstd::arithmetic::power2::{pow2, lemma_pow2_adds, lemma_pow2_pos, lemma2_to64, lemma_pow2_strictly_increases};
use vstd::arithmetic::div_mod::{lemma_fundamental_div_mod};
use std::collections::HashMap;
use std::collections::HashSet;
use crate::field::{Fp, fp_wf};
use crate::params::{PoseidonParams, params_wf, p_of};
use crate::poseidon::{h2_v, poseidon_hash_pair};
use crate::merkle_model::{
    leaf_of, empty_v, subtree_v, region_clear, lemma_region_char, lemma_region_children,
    lemma_subtree_clear, lemma_subtree_frame, lemma_div_chain, pow2_log, lemma_pow2_log,
    lemma_region_merge, region_has_stored,
};

verus! {

broadcast use vstd::std_specs::hash::group_hash_axioms;

/// Whether a batch entry is acceptable for a tree of the given width.
pub open spec fn op_valid(op: OperationLeaf, width: nat, m: nat) -> bool {
    &&& op.coord.height == 0
    &&& (op.coord.idx as nat) < width
    &&& (op.action == ActionLeaf::Insert ==> (op.hash matches Option::Some(f) && fp_wf(f, m)))
}

/// The effect of one batch entry on the leaf map.
pub open spec fn apply_op(lv: Map<nat, nat>, op: OperationLeaf) -> Map<nat, nat> {
    match op.action {
        ActionLeaf::Insert => match op.hash {
            Option::Some(f) => lv.insert(op.coord.idx as nat, f@),
            Option::None => lv,
        },
        ActionLeaf::Remove => lv.remove(op.coord.idx as nat),
    }
}

/// The effect of a whole batch, applied in order.
pub open spec fn apply_ops(lv: Map<nat, nat>, ops: Seq<OperationLeaf>) -> Map<nat, nat>
    decreases ops.len(),
{
    if ops.len() == 0 {
        lv
    } else {
        apply_ops(apply_op(lv, ops[0]), ops.skip(1))
    }
}

/// Peeling the last entry off a batch.
pub proof fn lemma_apply_ops_snoc(lv: Map<nat, nat>, ops: Seq<OperationLeaf>, op: OperationLeaf)
    ensures
        apply_ops(lv, ops.push(op)) == apply_op(apply_ops(lv, ops), op),
    decreases ops.len(),
{
    if ops.len() == 0 {
        assert(ops.push(op)[0] == op);
        assert(ops.push(op).skip(1) =~= Seq::<OperationLeaf>::empty());
        assert(apply_ops(lv, ops.push(op)) == apply_ops(
            apply_op(lv, op),
            ops.push(op).skip(1),
        ));
        assert(apply_ops(apply_op(lv, op), Seq::<OperationLeaf>::empty()) == apply_op(lv, op));
        assert(apply_ops(lv, ops) == lv);
    } else {
        assert(ops.push(op)[0] == ops[0]);
        assert(ops.push(op).skip(1) =~= ops.skip(1).push(op));
        lemma_apply_ops_snoc(apply_op(lv, ops[0]), ops.skip(1), op);
    }
}

/// A node coordinate: its height (zero at the leaves) and its index within
/// that level.
#[derive(Clone, Copy, Debug, PartialEq, Eq, Structural)]
pub struct Coord {
    /// Level of the node; leaves sit at height zero.
    pub height: usize,
    /// Index within the level, counted from the left.
    pub idx: usize,
}

/// What a batch entry does to its leaf.
#[derive(Clone, Copy, Debug, PartialEq, Eq, Structural)]
pub enum ActionLeaf {
    /// Store the given value at the leaf.
    Insert,
    /// Clear the leaf.
    Remove,
}

/// One batch operation on a leaf.
pub struct OperationLeaf {
    /// The leaf coordinate; its height must be zero.
    pub coord: Coord,
    /// Insert or remove.
    pub action: ActionLeaf,
    /// The value to insert; ignored for removals.
    pub hash: Option<Fp>,
}

/// Number of index values reserved per level in the packed store key.
pub open spec fn key_stride() -> nat {
    0x200_0000_0000_0000
}

/// One key holds the same entry in both maps: present in one exactly when
/// present in the other, and then with one value.
pub open spec fn cache_entry_same(a: Map<u64, Fp>, b: Map<u64, Fp>, k: u64) -> bool {
    &&& b.contains_key(k) == a.contains_key(k)
    &&& (b.contains_key(k) ==> b[k] == a[k])
}

/// A strict ancestor of leaf `t`: the coordinates whose presence bit the
/// upward walk may change.
pub open spec fn on_path(t: nat, j: nat, i: nat) -> bool {
    j >= 1 && i == t / pow2(j)
}

/// A cache key the upward walk from leaf `t` may touch: an ancestor of the
/// leaf, a child of an ancestor (the path node or its sibling), or one of
/// the leaf-level coordinates the shallow sweep probes under an ancestor.
pub open spec fn near_path(t: nat, height: nat, j: nat, i: nat) -> bool {
    ||| (j >= 1 && i == t / pow2(j))
    ||| i / 2 == t / pow2((j + 1) as nat)
    ||| (j == 0 && exists|l: nat| 1 <= l <= height && i / 2 == t / pow2(l))
}

/// The packed store key of a coordinate.
pub open spec fn key_v(h: nat, i: nat) -> nat {
    h * key_stride() + i
}

/// Packed keys are distinct for distinct in-range coordinates.
pub proof fn lemma_key_inj(h1: nat, i1: nat, h2: nat, i2: nat)
    requires
        i1 < key_stride(),
        i2 < key_stride(),
        key_v(h1, i1) == key_v(h2, i2),
    ensures
        h1 == h2,
        i1 == i2,
{
    let s = key_stride() as int;
    assert(h1 == h2 && i1 == i2) by (nonlinear_arith)
        requires
            (h1 as int) * s + i1 == (h2 as int) * s + i2,
            0 <= i1 < s,
            0 <= i2 < s,
            h1 >= 0,
            h2 >= 0,
            s == 0x200_0000_0000_0000,
    ;
}

/// The second map holds a subset of the first map's entries, unchanged.
pub open spec fn map_shrinks(a: Map<u64, Fp>, b: Map<u64, Fp>) -> bool {
    forall|k: u64| #[trigger] b.contains_key(k) ==> a.contains_key(k) && b[k] == a[k]
}

/// Shrinking is transitive.
pub proof fn lemma_shrinks_trans(a: Map<u64, Fp>, b: Map<u64, Fp>, c: Map<u64, Fp>)
    requires
        map_shrinks(a, b),
        map_shrinks(b, c),
    ensures
        map_shrinks(a, c),
{
    assert forall|k: u64| #[trigger] c.contains_key(k) implies a.contains_key(k) && c[k]
        == a[k] by {
        assert(b.contains_key(k));
    }
}

/// Removing an entry shrinks a map.
pub proof fn lemma_shrinks_remove(a: Map<u64, Fp>, k0: u64)
    ensures
        map_shrinks(a, a.remove(k0)),
{
}

/// A packed key of an in-range coordinate fits in a word.
pub proof fn lemma_key_fits(h: nat, i: nat)
    requires
        h < 64,
        i < key_stride(),
    ensures
        key_v(h, i) < 0x1_0000_0000_0000_0000,
        key_v(h, i) as u64 == key_v(h, i),
{
    let s = key_stride() as int;
    assert((h as int) * s + i < 64 * s) by (nonlinear_arith)
        requires
            h < 64 && 0 <= i < s && s == 0x200_0000_0000_0000,
    ;
}

/// Packs a coordinate into a store key.
pub fn coord_key(height: usize, idx: usize) -> (r: u64)
    requires
        height < 64,
        idx < 0x200_0000_0000_0000,
    ensures
        r == key_v(height as nat, idx as nat),
{
    (height as u64) * 0x200_0000_0000_0000u64 + (idx as u64)
}

/// The error kinds the tree surfaces.
#[derive(Clone, Copy, Debug, PartialEq, Eq, Structural)]
pub enum Error {
    /// A width that is not a supported power of two, or an out-of-range leaf.
    InvalidArgument,
    /// A store read or write failed; the tree state is undefined and the
    /// instance should be discarded. The in-memory engine never produces
    /// this: it is the vocabulary of a persistent shell.
    StorageError,
    /// A storage failure was observed earlier; further operations are
    /// refused. Likewise produced only by a persistent shell.
    Poisoned,
}

/// The sparse Merkle tree engine.
pub struct BigMerkleTree {
    /// The number of leaves: a power of two.
    pub width: usize,
    /// The height of the tree: `log2(width)`.
    pub height: usize,
    /// Where a persistent shell would keep the leaf store.
    pub path_db: String,
    /// Where a persistent shell would keep the node cache store.
    pub path_cache: String,
    /// The Poseidon parameter bundle of this tree.
    pub params: PoseidonParams,
    /// `empty_table[h]` is the hash of the all-zero subtree of height `h`.
    pub empty_table: Vec<Fp>,
    /// The leaf store: index to stored value.
    pub database: HashMap<u64, Fp>,
    /// The cache of interesting interior hashes, keyed by packed coordinate.
    pub db_cache: HashMap<u64, Fp>,
    /// The per-operation path cache, keyed by packed coordinate.
    pub cache_path: HashMap<u64, Fp>,
    /// Coordinates whose subtree is not entirely empty.
    pub present_node: HashSet<u64>,
    /// The running root.
    pub root: Fp,
}

impl BigMerkleTree {
    /// The leaves as a partial map from index to field value.
    pub open spec fn leaves_v(&self) -> Map<nat, nat> {
        Map::new(
            |k: nat| k < self.width && self.database@.contains_key(k as u64),
            |k: nat| self.database@[k as u64]@,
        )
    }

    /// Whether the coordinate is marked as non-empty.
    pub open spec fn present_at(&self, h: nat, i: nat) -> bool {
        self.present_node@.contains(key_v(h, i) as u64)
    }

    /// Whether the coordinate has a stored interior hash.
    pub open spec fn cached_at(&self, h: nat, i: nat) -> bool {
        self.db_cache@.contains_key(key_v(h, i) as u64)
    }

    /// The stored interior hash of the coordinate.
    pub open spec fn cache_val(&self, h: nat, i: nat) -> nat {
        self.db_cache@[key_v(h, i) as u64]@
    }

    /// A coordinate that lies within the tree.
    pub open spec fn coord_ok(&self, h: nat, i: nat) -> bool {
        h <= self.height && i < pow2((self.height - h) as nat)
    }

    /// Emptiness soundness at one coordinate: a coordinate not marked
    /// present roots an all-zero subtree.
    pub open spec fn w2_at(&self, h: nat, i: nat) -> bool {
        self.present_at(h, i) || region_clear(self.leaves_v(), h, i)
    }

    /// Presence is witnessed at one coordinate: a present coordinate has a
    /// stored leaf somewhere below it.
    pub open spec fn w2r_at(&self, h: nat, i: nat) -> bool {
        self.present_at(h, i) ==> region_has_stored(self.leaves_v(), h, i)
    }

    /// Cache soundness at one coordinate: a present coordinate with a stored
    /// hash stores the true subtree hash.
    pub open spec fn w3_at(&self, h: nat, i: nat) -> bool {
        (self.present_at(h, i) && self.cached_at(h, i)) ==> self.cache_val(h, i) == subtree_v(
            &self.params,
            self.leaves_v(),
            h,
            i,
        )
    }

    /// The structural part of the invariant: parameters, shape, tables and
    /// stores are well formed.
    pub open spec fn base_wf(&self) -> bool {
        &&& params_wf(&self.params)
        &&& 1 <= self.height <= 30
        &&& self.width == pow2(self.height as nat)
        &&& self.empty_table.len() == self.height + 1
        &&& forall|h: int|
            0 <= h <= self.height ==> fp_wf(#[trigger] self.empty_table@[h], p_of(&self.params))
                && self.empty_table@[h]@ == empty_v(&self.params, h as nat)
        &&& forall|k: u64|
            self.database@.contains_key(k) ==> k < self.width && fp_wf(
                #[trigger] self.database@[k],
                p_of(&self.params),
            )
        &&& forall|k: u64|
            self.db_cache@.contains_key(k) ==> fp_wf(#[trigger] self.db_cache@[k], p_of(&self.params))
        &&& forall|k: u64|
            self.cache_path@.contains_key(k) ==> fp_wf(
                #[trigger] self.cache_path@[k],
                p_of(&self.params),
            )
        &&& forall|k: u64|
            k < self.width && self.present_node@.contains(k) ==> #[trigger] self.database@.contains_key(
                k,
            )
        &&& forall|k: u64|
            #[trigger] self.db_cache@.contains_key(k) ==> k >= 0x200_0000_0000_0000u64
        &&& forall|k: u64|
            #[trigger] self.present_node@.contains(k) ==> exists|j: nat, i: nat|
                self.coord_ok(j, i) && k == key_v(j, i) as u64
    }

    /// Emptiness soundness away from the strict ancestors of leaf `t` above
    /// level `lvl`.
    pub open spec fn w2_above(&self, t: nat, lvl: nat) -> bool {
        forall|h: nat, i: nat|
            self.coord_ok(h, i) && !(h > lvl && i == t / pow2(h)) ==> #[trigger] self.w2_at(h, i)
    }

    /// Presence witnesses away from the strict ancestors of leaf `t` above
    /// level `lvl`.
    pub open spec fn w2r_above(&self, t: nat, lvl: nat) -> bool {
        forall|h: nat, i: nat|
            self.coord_ok(h, i) && !(h > lvl && i == t / pow2(h)) ==> #[trigger] self.w2r_at(h, i)
    }

    /// Cache soundness away from the strict ancestors of leaf `t` above
    /// level `lvl`.
    pub open spec fn w3_above(&self, t: nat, lvl: nat) -> bool {
        forall|h: nat, i: nat|
            self.coord_ok(h, i) && !(h > lvl && i == t / pow2(h)) ==> #[trigger] self.w3_at(h, i)
    }

    /// Emptiness soundness everywhere.
    pub open spec fn w2_all(&self) -> bool {
        forall|h: nat, i: nat| self.coord_ok(h, i) ==> #[trigger] self.w2_at(h, i)
    }

    /// Presence witnesses everywhere.
    pub open spec fn w2r_all(&self) -> bool {
        forall|h: nat, i: nat| self.coord_ok(h, i) ==> #[trigger] self.w2r_at(h, i)
    }

    /// Cache soundness everywhere.
    pub open spec fn w3_all(&self) -> bool {
        forall|h: nat, i: nat| self.coord_ok(h, i) ==> #[trigger] self.w3_at(h, i)
    }

    /// The full invariant: sound stores and a root that equals the dense
    /// full-tree hash of the leaves.
    pub open spec fn wf(&self) -> bool {
        &&& self.base_wf()
        &&& self.w2_all()
        &&& self.w2r_all()
        &&& self.w3_all()
        &&& fp_wf(self.root, p_of(&self.params))
        &&& self.root@ == subtree_v(&self.params, self.leaves_v(), self.height as nat, 0)
    }

    /// Soundness of a whole subtree: both per-coordinate conditions at the
    /// coordinate and at every coordinate below it.
    pub open spec fn desc_sound(&self, h: nat, i: nat) -> bool {
        forall|j: nat, k: nat|
            j <= h && self.coord_ok(j, k) && k / pow2((h - j) as nat) == i ==> (
            #[trigger] self.w2_at(j, k)) && self.w3_at(j, k)
    }

    /// Opens a tree of the given width with the given parameter bundle.
    ///
    /// The width must be a power of two between 2 and 2^30: the degenerate
    /// one-leaf tree is not supported, since the update walk assumes at
    /// least one level above the leaves. The two paths name the directories
    /// a persistent shell would use for the two stores; this verified
    /// engine keeps both stores in memory.
    pub fn new(width: usize, path_db: String, path_cache: String, params: PoseidonParams) -> (r:
        Result<BigMerkleTree, Error>)
        requires
            params_wf(&params),
        ensures
            match r {
                Result::Ok(t) => {
                    &&& t.wf()
                    &&& t.width == width
                    &&& pow2_log(width as nat) == Option::Some(t.height as nat)
                    &&& t.leaves_v() == Map::<nat, nat>::empty()
                    &&& t.database@ == Map::<u64, Fp>::empty()
                    &&& t.present_node@ == Set::<u64>::empty()
                    &&& t.db_cache@ == Map::<u64, Fp>::empty()
                    &&& t.cache_path@ == Map::<u64, Fp>::empty()
                    &&& t.params == params
                    &&& t.root@ == empty_v(&params, t.height as nat)
                },
                Result::Err(e) => {
                    &&& e == Error::InvalidArgument
                    &&& (pow2_log(width as nat) is None || pow2_log(width as nat)->Some_0 < 1
                        || pow2_log(width as nat)->Some_0 > 30)
                },
            },
    {
        // find the exponent of the width
        let mut w = width;
        let mut h: usize = 0;
        proof {
            lemma_pow2_pos(0);
            assert(pow2(0) == 1) by {
                lemma2_to64();
            }
            assert(pow2(0) * width == width) by (nonlinear_arith)
                requires
                    pow2(0) == 1,
            ;
        }
        while h < 40 && w > 1 && w % 2 == 0
            invariant
                pow2_log(width as nat) == match pow2_log(w as nat) {
                    Option::Some(e) => Option::Some((e + h) as nat),
                    Option::None => Option::None,
                },
                w <= width,
                h <= 40,
                w >= 1 ==> pow2(h as nat) * w <= width,
                pow2(h as nat) >= 1,
            decreases w,
        {
            proof {
                lemma_pow2_adds(h as nat, 1);
                assert(pow2(1) == 2) by {
                    lemma2_to64();
                }
                lemma_fundamental_div_mod(w as int, 2);
                assert(pow2((h + 1) as nat) * (w as int / 2) == pow2(h as nat) * w)
                    by (nonlinear_arith)
                    requires
                        pow2((h + 1) as nat) == pow2(h as nat) * 2,
                        w as int == 2 * (w as int / 2),
                ;
            }
            proof {
                lemma_fundamental_div_mod(w as int, 2);
                lemma_pow2_pos((h + 1) as nat);
                assert(w / 2 < w);
            }
            w = w / 2;
            h = h + 1;
        }
        if w != 1 || h < 1 || h > 30 {
            // either the width is no power of two, or its exponent is out of range
            return Result::Err(Error::InvalidArgument);
        }
        proof {
            assert(pow2_log(width as nat) == Option::Some(h as nat));
            lemma_pow2_log(width as nat);
        }
        // the table of empty-subtree hashes up to the root
        let mut empty_table: Vec<Fp> = Vec::new();
        empty_table.push(Fp::zero());
        let mut lvl: usize = 1;
        while lvl <= h
            invariant
                params_wf(&params),
                1 <= lvl <= h + 1,
                h <= 30,
                empty_table.len() == lvl,
                forall|j: int|
                    0 <= j < lvl ==> fp_wf(#[trigger] empty_table@[j], p_of(&params))
                        && empty_table@[j]@ == empty_v(&params, j as nat),
            decreases h + 1 - lvl,
        {
            proof {
                crate::bignum::lemma_modulus_bounds(params.modulus@);
                lemma_pow2_pos(704);
            }
            let prev = &empty_table[lvl - 1];
            let next = poseidon_hash_pair(&params, prev, prev);
            empty_table.push(next);
            lvl += 1;
        }
        let t = BigMerkleTree {
            width,
            height: h,
            path_db,
            path_cache,
            params,
            empty_table,
            database: HashMap::new(),
            db_cache: HashMap::new(),
            cache_path: HashMap::new(),
            present_node: HashSet::new(),
            root: Fp::zero(),
        };
        let root = t.empty_table[h].dup();
        let t = BigMerkleTree { root, ..t };
        proof {
            assert(t.leaves_v() =~= Map::<nat, nat>::empty());
            assert forall|hh: nat, ii: nat| t.coord_ok(hh, ii) implies t.w2_at(hh, ii) by {
                assert(forall|i: nat| leaf_of(t.leaves_v(), i) == 0);
            }
            assert forall|hh: nat, ii: nat| t.coord_ok(hh, ii) implies t.w3_at(hh, ii) by {
                assert(!t.cached_at(hh, ii));
            }
            lemma_subtree_clear(&t.params, t.leaves_v(), t.height as nat, 0);
        }
        Result::Ok(t)
    }

    /// Stores an interior hash in the node cache.
    ///
    /// This is the raw adapter over the cache store: it changes the cache
    /// alone and may break the tree invariant if used on its own.
    pub fn insert_to_cache(&mut self, coord: Coord, data: Fp)
        requires
            coord.height < 64,
            coord.idx < 0x200_0000_0000_0000,
        ensures
            final(self).db_cache@ == old(self).db_cache@.insert(
                key_v(coord.height as nat, coord.idx as nat) as u64,
                data,
            ),
            *final(self) == (BigMerkleTree { db_cache: final(self).db_cache, ..*old(self) }),
    {
        let key = coord_key(coord.height, coord.idx);
        self.db_cache.insert(key, data);
    }

    /// Whether the node cache holds an entry for the coordinate.
    pub fn contains_key_in_cache(&self, coord: Coord) -> (r: bool)
        requires
            coord.height < 64,
            coord.idx < 0x200_0000_0000_0000,
        ensures
            r == self.cached_at(coord.height as nat, coord.idx as nat),
    {
        let key = coord_key(coord.height, coord.idx);
        self.db_cache.contains_key(&key)
    }

    /// Reads an interior hash from the node cache.
    pub fn get_from_cache(&self, coord: Coord) -> (r: Option<Fp>)
        requires
            coord.height < 64,
            coord.idx < 0x200_0000_0000_0000,
        ensures
            match r {
                Option::Some(f) => self.cached_at(coord.height as nat, coord.idx as nat)
                    && f.limbs@ == self.db_cache@[key_v(
                    coord.height as nat,
                    coord.idx as nat,
                ) as u64].limbs@,
                Option::None => !self.cached_at(coord.height as nat, coord.idx as nat),
            },
    {
        let key = coord_key(coord.height, coord.idx);
        match self.db_cache.get(&key) {
            Option::Some(f) => Option::Some(f.dup()),
            Option::None => Option::None,
        }
    }

    /// Deletes an interior hash from the node cache, returning the old entry.
    pub fn remove_from_cache(&mut self, coord: Coord) -> (r: Option<Fp>)
        requires
            coord.height < 64,
            coord.idx < 0x200_0000_0000_0000,
        ensures
            final(self).db_cache@ == old(self).db_cache@.remove(
                key_v(coord.height as nat, coord.idx as nat) as u64,
            ),
            *final(self) == (BigMerkleTree { db_cache: final(self).db_cache, ..*old(self) }),
            match r {
                Option::Some(f) => old(self).cached_at(coord.height as nat, coord.idx as nat)
                    && f.limbs@ == old(self).db_cache@[key_v(
                    coord.height as nat,
                    coord.idx as nat,
                ) as u64].limbs@,
                Option::None => !old(self).cached_at(coord.height as nat, coord.idx as nat),
            },
    {
        let key = coord_key(coord.height, coord.idx);
        let r = match self.db_cache.get(&key) {
            Option::Some(f) => Option::Some(f.dup()),
            Option::None => Option::None,
        };
        self.db_cache.remove(&key);
        r
    }

    /// Stores a leaf value.
    ///
    /// This is the raw adapter over the leaf store: it changes the store
    /// alone and may break the tree invariant if used on its own.
    pub fn insert_to_db(&mut self, idx: usize, data: Fp)
        requires
            idx < old(self).width,
        ensures
            final(self).database@ == old(self).database@.insert(idx as u64, data),
            *final(self) == (BigMerkleTree { database: final(self).database, ..*old(self) }),
    {
        self.database.insert(idx as u64, data);
    }

    /// Reads a leaf value.
    pub fn get_from_db(&self, idx: usize) -> (r: Option<Fp>)
        ensures
            match r {
                Option::Some(f) => self.database@.contains_key(idx as u64) && f.limbs@
                    == self.database@[idx as u64].limbs@,
                Option::None => !self.database@.contains_key(idx as u64),
            },
    {
        let key = idx as u64;
        match self.database.get(&key) {
            Option::Some(f) => Option::Some(f.dup()),
            Option::None => Option::None,
        }
    }

    /// Deletes a leaf value, returning the old entry.
    pub fn remove_from_db(&mut self, idx: usize) -> (r: Option<Fp>)
        ensures
            final(self).database@ == old(self).database@.remove(idx as u64),
            *final(self) == (BigMerkleTree { database: final(self).database, ..*old(self) }),
            match r {
                Option::Some(f) => old(self).database@.contains_key(idx as u64) && f.limbs@
                    == old(self).database@[idx as u64].limbs@,
                Option::None => !old(self).database@.contains_key(idx as u64),
            },
    {
        let key = idx as u64;
        let r = match self.database.get(&key) {
            Option::Some(f) => Option::Some(f.dup()),
            Option::None => Option::None,
        };
        self.database.remove(&key);
        r
    }

    /// Stores an interior hash in the node cache.
    pub fn insert_node_in_cache(&mut self, coord: Coord, hash: Fp)
        requires
            coord.height < 64,
            coord.idx < 0x200_0000_0000_0000,
        ensures
            final(self).db_cache@ == old(self).db_cache@.insert(
                key_v(coord.height as nat, coord.idx as nat) as u64,
                hash,
            ),
            *final(self) == (BigMerkleTree { db_cache: final(self).db_cache, ..*old(self) }),
    {
        self.insert_to_cache(coord, hash);
    }

    /// Deletes an interior hash from the node cache.
    pub fn remove_node_from_cache(&mut self, coord: Coord)
        requires
            coord.height < 64,
            coord.idx < 0x200_0000_0000_0000,
        ensures
            final(self).db_cache@ == old(self).db_cache@.remove(
                key_v(coord.height as nat, coord.idx as nat) as u64,
            ),
            *final(self) == (BigMerkleTree { db_cache: final(self).db_cache, ..*old(self) }),
    {
        let _ = self.remove_from_cache(coord);
    }

    /// The running root.
    pub fn root(&self) -> (r: Fp)
        ensures
            r.limbs@ == self.root.limbs@,
            r@ == self.root@,
    {
        self.root.dup()
    }

    /// The two-to-one Poseidon hash under this tree's parameters.
    pub fn poseidon_hash(&self, x: &Fp, y: &Fp) -> (r: Fp)
        requires
            params_wf(&self.params),
            fp_wf(*x, p_of(&self.params)),
            fp_wf(*y, p_of(&self.params)),
        ensures
            fp_wf(r, p_of(&self.params)),
            r@ == h2_v(&self.params, x@, y@),
    {
        poseidon_hash_pair(&self.params, x, y)
    }

    /// The hash of the subtree rooted at `coord`, recomputed on demand.
    ///
    /// A coordinate outside the presence set answers with the empty-subtree
    /// constant; a cached coordinate answers from the cache; anything else
    /// is recomputed from the leaves upward. Only used at height one or
    /// above.
    #[verifier::rlimit(60)]
    #[verifier::spinoff_prover]
    pub fn node(&self, coord: Coord) -> (r: Fp)
        requires
            self.base_wf(),
            1 <= coord.height <= self.height,
            coord.idx < pow2((self.height - coord.height) as nat),
            self.desc_sound(coord.height as nat, coord.idx as nat),
        ensures
            fp_wf(r, p_of(&self.params)),
            r@ == subtree_v(&self.params, self.leaves_v(), coord.height as nat, coord.idx as nat),
        decreases coord.height,
    {
        let h = coord.height;
        let i = coord.idx;
        proof {
            lemma_pow2_strictly_increases((self.height - h) as nat, 57);
            assert(pow2(57) == 0x200_0000_0000_0000) by {
                vstd::arithmetic::power2::lemma2_to64_rest();
            }
            // the coordinate itself is a descendant of itself
            lemma_pow2_pos(0);
            assert(pow2(0) == 1) by {
                lemma2_to64();
            }
            assert((i as nat) / pow2(0) == i as nat) by {
                lemma_fundamental_div_mod(i as int, 1);
            }
            assert(self.coord_ok(h as nat, i as nat));
            assert(((h as nat) - (h as nat)) as nat == 0);
            assert((i as nat) / pow2(((h as nat) - (h as nat)) as nat) == i as nat);
            assert(self.w2_at(h as nat, i as nat) && self.w3_at(h as nat, i as nat));
        }
        let key = coord_key(h, i);
        proof {
            lemma_key_fits(h as nat, i as nat);
        }
        if !self.present_node.contains(&key) {
            proof {
                lemma_subtree_clear(&self.params, self.leaves_v(), h as nat, i as nat);
            }
            let r = self.empty_table[h].dup();
            proof {
                assert(r@ == subtree_v(&self.params, self.leaves_v(), h as nat, i as nat));
            }
            return r;
        }
        match self.db_cache.get(&key) {
            Option::Some(f) => {
                let r = f.dup();
                proof {
                    assert(self.present_at(h as nat, i as nat) && self.cached_at(
                        h as nat,
                        i as nat,
                    ));
                    assert(r@ == self.cache_val(h as nat, i as nat));
                    assert(r@ == subtree_v(&self.params, self.leaves_v(), h as nat, i as nat));
                }
                r
            },
            Option::None => {
                proof {
                    // the children fit one level lower
                    lemma_pow2_adds((self.height - h) as nat, 1);
                    assert(pow2(1) == 2) by {
                        lemma2_to64();
                    }
                    lemma_pow2_strictly_increases((self.height - h + 1) as nat, 31);
                    assert(pow2(31) == 0x8000_0000) by {
                        lemma2_to64();
                    }
                }
                if h == 1 {
                    let left = match self.database.get(&((2 * i) as u64)) {
                        Option::Some(f) => f.dup(),
                        Option::None => Fp::zero(),
                    };
                    let right = match self.database.get(&((2 * i + 1) as u64)) {
                        Option::Some(f) => f.dup(),
                        Option::None => Fp::zero(),
                    };
                    proof {
                        lemma_pow2_adds((self.height - 1) as nat, 1);
                        assert(2 * i < self.width && 2 * i + 1 < self.width) by (nonlinear_arith)
                            requires
                                i < pow2((self.height - 1) as nat),
                                self.width == pow2(self.height as nat),
                                pow2(self.height as nat) == pow2((self.height - 1) as nat) * pow2(1),
                                pow2(1) == 2,
                        ;
                        assert(left@ == leaf_of(self.leaves_v(), (2 * i) as nat));
                        assert(right@ == leaf_of(self.leaves_v(), (2 * i + 1) as nat));
                    }
                    let r = poseidon_hash_pair(&self.params, &left, &right);
                    proof {
                        assert(subtree_v(&self.params, self.leaves_v(), 1, i as nat) == h2_v(
                            &self.params,
                            subtree_v(&self.params, self.leaves_v(), 0, (2 * i) as nat),
                            subtree_v(&self.params, self.leaves_v(), 0, (2 * i + 1) as nat),
                        ));
                        assert(r@ == subtree_v(&self.params, self.leaves_v(), h as nat, i as nat));
                    }
                    r
                } else {
                    let cl = Coord { height: h - 1, idx: 2 * i };
                    let cr = Coord { height: h - 1, idx: 2 * i + 1 };
                    proof {
                        lemma_pow2_adds((self.height - h) as nat, 1);
                        assert(2 * i + 1 < pow2((self.height - h + 1) as nat)) by (nonlinear_arith)
                            requires
                                i < pow2((self.height - h) as nat),
                                pow2((self.height - h + 1) as nat) == pow2(
                                    (self.height - h) as nat,
                                ) * pow2(1),
                                pow2(1) == 2,
                        ;
                        // descendants of either child are descendants of the node
                        assert forall|j: nat, k: nat|
                            j <= (h - 1) as nat && self.coord_ok(j, k) && k / pow2(
                                ((h - 1) - j) as nat,
                            ) == cl.idx as nat implies (#[trigger] self.w2_at(j, k)) && self.w3_at(
                            j,
                            k,
                        ) by {
                            lemma_div_chain(k, ((h - 1) - j) as nat, 1);
                            assert(pow2(1) == 2) by {
                                lemma2_to64();
                            }
                            lemma_fundamental_div_mod((2 * i) as int, 2);
                            assert((2 * i) as nat / 2 == i as nat) by (nonlinear_arith);
                            assert(k / pow2((h - j) as nat) == i as nat);
                        }
                        assert forall|j: nat, k: nat|
                            j <= (h - 1) as nat && self.coord_ok(j, k) && k / pow2(
                                ((h - 1) - j) as nat,
                            ) == cr.idx as nat implies (#[trigger] self.w2_at(j, k)) && self.w3_at(
                            j,
                            k,
                        ) by {
                            lemma_div_chain(k, ((h - 1) - j) as nat, 1);
                            assert(pow2(1) == 2) by {
                                lemma2_to64();
                            }
                            lemma_fundamental_div_mod((2 * i + 1) as int, 2);
                            assert((2 * i + 1) as nat / 2 == i as nat) by (nonlinear_arith);
                            assert(k / pow2((h - j) as nat) == i as nat);
                        }
                    }
                    let left = self.node(cl);
                    let right = self.node(cr);
                    let r = poseidon_hash_pair(&self.params, &left, &right);
                    proof {
                        assert(subtree_v(&self.params, self.leaves_v(), h as nat, i as nat)
                            == h2_v(
                            &self.params,
                            subtree_v(&self.params, self.leaves_v(), (h - 1) as nat, (2 * i) as nat),
                            subtree_v(
                                &self.params,
                                self.leaves_v(),
                                (h - 1) as nat,
                                (2 * i + 1) as nat,
                            ),
                        ));
                        assert(r@ == subtree_v(&self.params, self.leaves_v(), h as nat, i as nat));
                    }
                    r
                }
            },
        }
    }


    /// The state in the middle of a leaf update: the leaf map already holds
    /// its new contents, the target leaf hash sits in the path cache, and
    /// soundness holds everywhere but on the strict ancestors of the target.
    pub open spec fn update_ready(&self, t: nat) -> bool {
        &&& self.base_wf()
        &&& t < self.width
        &&& self.cache_path@.contains_key(key_v(0, t) as u64)
        &&& self.cache_path@[key_v(0, t) as u64]@ == leaf_of(self.leaves_v(), t)
        &&& self.w2_above(t, 0)
        &&& self.w2r_above(t, 0)
        &&& self.w3_above(t, 0)
    }

    /// Recomputes the hashes on the path from the updated leaf to the root,
    /// maintaining the presence set and the node cache, and stores the new
    /// root.
    #[verifier::rlimit(100)]
    #[verifier::spinoff_prover]
    pub fn update_tree(&mut self, coord: Coord)
        requires
            coord.height == 0,
            old(self).update_ready(coord.idx as nat),
        ensures
            final(self).wf(),
            final(self).database == old(self).database,
            final(self).leaves_v() == old(self).leaves_v(),
            final(self).width == old(self).width,
            final(self).height == old(self).height,
            final(self).params == old(self).params,
            final(self).empty_table == old(self).empty_table,
            final(self).path_db == old(self).path_db,
            final(self).path_cache == old(self).path_cache,
            forall|j: nat, i: nat|
                final(self).coord_ok(j, i) && !on_path(coord.idx as nat, j, i) ==> (
                #[trigger] final(self).present_at(j, i)) == old(self).present_at(j, i),
            forall|j: nat, i: nat|
                final(self).coord_ok(j, i) && !near_path(
                    coord.idx as nat,
                    final(self).height as nat,
                    j,
                    i,
                ) ==> (#[trigger] final(self).cached_at(j, i)) == old(self).cached_at(j, i) && (
                final(self).cached_at(j, i) ==> final(self).cache_val(j, i) == old(self).cache_val(
                    j,
                    i,
                )),
    {
        let ghost t = coord.idx as nat;
        let ghost lv = old(self).leaves_v();
        let mut h: usize = 0;
        let mut idx = coord.idx;
        proof {
            assert(pow2(0) == 1) by {
                lemma2_to64();
            }
            assert(t / pow2(0) == t) by {
                lemma_fundamental_div_mod(t as int, 1);
            }
            assert(self.leaves_v() =~= lv);
            assert(pow2(30) == 0x4000_0000) by {
                lemma2_to64();
            }
            if (self.height as nat) < 30 {
                lemma_pow2_strictly_increases(self.height as nat, 30);
            }
        }
        while h < self.height
            invariant
                self.base_wf(),
                t < self.width,
                h <= self.height,
                idx as nat == t / pow2(h as nat),
                idx < pow2((self.height - h) as nat),
                idx < 0x4000_0000,
                self.leaves_v() == lv,
                self.cache_path@.contains_key(key_v(h as nat, idx as nat) as u64),
                self.cache_path@[key_v(h as nat, idx as nat) as u64]@ == subtree_v(
                    &self.params,
                    lv,
                    h as nat,
                    idx as nat,
                ),
                self.w2_above(t, h as nat),
                self.w2r_above(t, h as nat),
                self.w3_above(t, h as nat),
                forall|j: nat, i: nat|
                    self.coord_ok(j, i) && !on_path(t, j, i) ==> (#[trigger] self.present_at(
                        j,
                        i,
                    )) == old(self).present_at(j, i),
                forall|j: nat, i: nat|
                    self.coord_ok(j, i) && !near_path(t, self.height as nat, j, i) ==> (
                    #[trigger] self.cached_at(j, i)) == old(self).cached_at(j, i) && (
                    self.cached_at(j, i) ==> self.cache_val(j, i) == old(self).cache_val(j, i)),
                self.database == old(self).database,
                self.width == old(self).width,
                self.height == old(self).height,
                self.params == old(self).params,
                self.empty_table == old(self).empty_table,
                self.path_db == old(self).path_db,
                self.path_cache == old(self).path_cache,
            decreases self.height - h,
        {
            let ghost prev = *self;
            let hp = h + 1;
            proof {
                // geometry of this step
                lemma_pow2_adds((self.height - hp) as nat, 1);
                assert(pow2(1) == 2) by {
                    lemma2_to64();
                }
                lemma_fundamental_div_mod(idx as int, 2);
                assert(idx / 2 < pow2((self.height - hp) as nat)) by (nonlinear_arith)
                    requires
                        idx < pow2((self.height - h) as nat),
                        pow2((self.height - h) as nat) == pow2((self.height - hp) as nat) * 2,
                        idx as int == 2 * (idx as int / 2) + (idx as int) % 2,
                        0 <= (idx as int) % 2 < 2,
                ;
                lemma_div_chain(t, h as nat, 1);
            }
            let pi = idx / 2;
            let li = 2 * pi;
            let sib = if idx % 2 == 0 {
                idx + 1
            } else {
                idx - 1
            };
            proof {
                lemma_fundamental_div_mod(idx as int, 2);
                assert(pi as nat == t / pow2(hp as nat));
                if idx % 2 == 0 {
                    assert(li == idx && li + 1 == sib);
                } else {
                    assert(li == sib && li + 1 == idx);
                }
                lemma_key_fits(h as nat, idx as nat);
                lemma_key_fits(h as nat, sib as nat);
                lemma_key_fits(h as nat, li as nat);
                lemma_key_fits(h as nat, (li + 1) as nat);
                lemma_key_fits(hp as nat, pi as nat);
                // sibling and children are not excluded at level h
                assert(self.w2_at(h as nat, li as nat) && self.w3_at(h as nat, li as nat));
                assert(self.w2_at(h as nat, (li + 1) as nat) && self.w3_at(
                    h as nat,
                    (li + 1) as nat,
                ));
            }
            // resolve the hash of the current node from the path cache
            let cur_key = coord_key(h, idx);
            let self_hash: Fp = match self.cache_path.get(&cur_key) {
                Option::Some(f) => f.dup(),
                Option::None => {
                    proof {
                        assert(false);
                    }
                    vstd::pervasive::unreached()
                },
            };
            // resolve the sibling hash: a leaf read at the bottom, a node
            // computation above
            let sib_hash: Fp = if h == 0 {
                let r = match self.database.get(&(sib as u64)) {
                    Option::Some(f) => f.dup(),
                    Option::None => Fp::zero(),
                };
                proof {
                    assert(r@ == leaf_of(lv, sib as nat));
                }
                r
            } else {
                proof {
                    assert forall|j: nat, k: nat|
                        j <= h as nat && self.coord_ok(j, k) && k / pow2(((h as nat) - j) as nat)
                            == sib as nat implies (#[trigger] self.w2_at(j, k)) && self.w3_at(
                        j,
                        k,
                    ) by {
                    }
                }
                self.node(Coord { height: h, idx: sib })
            };
            let (left_hash, right_hash) = if idx % 2 == 0 {
                (self_hash, sib_hash)
            } else {
                (sib_hash, self_hash)
            };
            proof {
                assert(left_hash@ == subtree_v(&self.params, lv, h as nat, li as nat));
                assert(right_hash@ == subtree_v(&self.params, lv, h as nat, (li + 1) as nat));
                assert(subtree_v(&self.params, lv, hp as nat, pi as nat) == h2_v(
                    &self.params,
                    subtree_v(&self.params, lv, h as nat, (2 * (pi as nat)) as nat),
                    subtree_v(&self.params, lv, h as nat, (2 * (pi as nat) + 1) as nat),
                ));
            }
            let left_key = coord_key(h, li);
            let right_key = coord_key(h, li + 1);
            let parent_key = coord_key(hp, pi);
            let parent_coord = Coord { height: hp, idx: pi };
            let lp = self.present_node.contains(&left_key);
            let rp = self.present_node.contains(&right_key);
            let ghost mut swept: bool = false;
            let ghost mut cache_mid: Map<u64, Fp> = self.db_cache@;
            let node_hash: Fp;
            if !lp && !rp {
                // both subtrees are trivial: the parent keeps the empty hash
                node_hash = self.empty_table[hp].dup();
                self.present_node.remove(&parent_key);
                if h == 0 {
                    self.remove_node_from_cache(parent_coord);
                }
                proof {
                    assert(!prev.present_at(h as nat, li as nat));
                    assert(!prev.present_at(h as nat, (li + 1) as nat));
                    assert(region_clear(lv, h as nat, li as nat));
                    assert(region_clear(lv, h as nat, (li + 1) as nat));
                    assert(li as nat == 2 * (pi as nat) && (li + 1) as nat == 2 * (pi as nat) + 1);
                    lemma_region_merge(lv, hp as nat, pi as nat);
                    lemma_subtree_clear(&self.params, lv, hp as nat, pi as nat);
                }
            } else {
                node_hash = poseidon_hash_pair(&self.params, &left_hash, &right_hash);
                self.present_node.insert(parent_key);
                if lp && rp {
                    // both subtrees are non-trivial: the parent is interesting
                    self.insert_node_in_cache(parent_coord, node_hash.dup());
                    if h >= 1 {
                        self.insert_node_in_cache(Coord { height: h, idx: li }, left_hash.dup());
                        self.insert_node_in_cache(
                            Coord { height: h, idx: li + 1 },
                            right_hash.dup(),
                        );
                    }
                } else {
                    // one trivial subtree: above level one, run the shallow
                    // sweep as the walk always has; then drop any stored
                    // hash of the parent, so the cache never pairs presence
                    // with a stale entry
                    if h >= 1 && self.contains_key_in_cache(parent_coord) {
                        proof {
                            lemma_pow2_strictly_increases((self.height - hp) as nat, 29);
                            assert(pow2(29) == 0x2000_0000) by {
                                lemma2_to64();
                            }
                        }
                        self.remove_subtree_from_cache(parent_coord, 2);
                        proof {
                            swept = true;
                            cache_mid = self.db_cache@;
                        }
                    }
                    self.remove_node_from_cache(parent_coord);
                }
            }
            self.cache_path.insert(parent_key, node_hash);
            // soundness carries to the next level
            proof {
                let pk = key_v(hp as nat, pi as nat) as u64;
                assert(self.leaves_v() =~= lv);
                assert forall|j: nat, k: nat| #![trigger self.w2_at(j, k)]
                    self.coord_ok(j, k) && !(j > hp as nat && k == t / pow2(j)) implies self.w2_at(
                    j,
                    k,
                ) by {
                    lemma_pow2_strictly_increases(30, 57);
                    if ((self.height - j) as nat) < 30 {
                        lemma_pow2_strictly_increases((self.height - j) as nat, 30);
                    }
                    assert(pow2(57) == key_stride()) by {
                        vstd::arithmetic::power2::lemma2_to64_rest();
                    }
                    lemma_key_fits(j, k);
                    if j == hp as nat && k == pi as nat {
                        if !self.present_at(j, k) {
                            assert(region_clear(lv, hp as nat, pi as nat));
                        }
                    } else {
                        if key_v(j, k) == key_v(hp as nat, pi as nat) {
                            lemma_key_inj(j, k, hp as nat, pi as nat);
                            assert(false);
                        }
                        assert(prev.w2_at(j, k));
                        assert(self.present_at(j, k) == prev.present_at(j, k));
                    }
                }
                assert forall|j: nat, k: nat| #![trigger self.w3_at(j, k)]
                    self.coord_ok(j, k) && !(j > hp as nat && k == t / pow2(j)) implies self.w3_at(
                    j,
                    k,
                ) by {
                    lemma_pow2_strictly_increases(30, 57);
                    if ((self.height - j) as nat) < 30 {
                        lemma_pow2_strictly_increases((self.height - j) as nat, 30);
                    }
                    assert(pow2(57) == key_stride()) by {
                        vstd::arithmetic::power2::lemma2_to64_rest();
                    }
                    lemma_key_fits(j, k);
                    if j == hp as nat && k == pi as nat {
                        if self.present_at(j, k) && self.cached_at(j, k) {
                            assert(self.cache_val(j, k) == subtree_v(&self.params, lv, j, k));
                        }
                    } else if j == h as nat && (k == li as nat || k == (li + 1) as nat) {
                        if self.present_at(j, k) && self.cached_at(j, k) {
                            if lp && rp && h >= 1 {
                                assert(self.cache_val(j, k) == subtree_v(&self.params, lv, j, k));
                            } else {
                                assert(prev.cached_at(j, k) && self.cache_val(j, k)
                                    == prev.cache_val(j, k));
                                assert(prev.present_at(j, k));
                                assert(prev.w3_at(j, k));
                            }
                        }
                    } else {
                        if key_v(j, k) == key_v(hp as nat, pi as nat) {
                            lemma_key_inj(j, k, hp as nat, pi as nat);
                            assert(false);
                        }
                        if key_v(j, k) == key_v(h as nat, li as nat) {
                            lemma_key_inj(j, k, h as nat, li as nat);
                            assert(false);
                        }
                        if key_v(j, k) == key_v(h as nat, (li + 1) as nat) {
                            lemma_key_inj(j, k, h as nat, (li + 1) as nat);
                            assert(false);
                        }
                        assert(prev.w2_at(j, k) && prev.w3_at(j, k));
                        assert(self.present_at(j, k) == prev.present_at(j, k));
                        if self.cached_at(j, k) {
                            assert(prev.cached_at(j, k) && self.cache_val(j, k) == prev.cache_val(
                                j,
                                k,
                            ));
                        }
                    }
                }
                // the structural invariant survives the step
                assert((hp as nat) * key_stride() + (pi as nat) >= key_stride())
                    by (nonlinear_arith)
                    requires
                        hp >= 1 && pi >= 0,
                ;
                assert(pow2(30) < pow2(57)) by {
                    lemma_pow2_strictly_increases(30, 57);
                }
                assert(pow2(57) == key_stride()) by {
                    vstd::arithmetic::power2::lemma2_to64_rest();
                }
                assert(pow2(30) == 0x4000_0000) by {
                    lemma2_to64();
                }
                if (self.height as nat) < 30 {
                    lemma_pow2_strictly_increases(self.height as nat, 30);
                }
                assert(self.width <= pow2(30));
                assert forall|k: u64|
                    k < self.width && self.present_node@.contains(k) implies
                    #[trigger] self.database@.contains_key(k) by {
                    assert((k as nat) < key_stride());
                    assert(key_v(hp as nat, pi as nat) >= key_stride());
                    assert(k != key_v(hp as nat, pi as nat) as u64);
                    assert(prev.present_node@.contains(k));
                }
                assert forall|k: u64| #[trigger] self.db_cache@.contains_key(k) implies fp_wf(
                    self.db_cache@[k],
                    p_of(&self.params),
                ) by {
                    if prev.db_cache@.contains_key(k) && self.db_cache@[k] == prev.db_cache@[k] {
                    }
                }
                assert forall|k: u64| #[trigger] self.database@.contains_key(k) implies k
                    < self.width && fp_wf(self.database@[k], p_of(&self.params)) by {
                    assert(prev.database@.contains_key(k) && prev.database@[k]
                        == self.database@[k]);
                }
                assert forall|k: u64| #[trigger] self.cache_path@.contains_key(k) implies fp_wf(
                    self.cache_path@[k],
                    p_of(&self.params),
                ) by {
                    if prev.cache_path@.contains_key(k) && self.cache_path@[k]
                        == prev.cache_path@[k] {
                    }
                }
                // presence changes only on the path
                assert forall|j: nat, i: nat|
                    self.coord_ok(j, i) && !on_path(t, j, i) implies (#[trigger] self.present_at(
                        j,
                        i,
                    )) == old(self).present_at(j, i) by {
                    if ((self.height - j) as nat) < 30 {
                        lemma_pow2_strictly_increases((self.height - j) as nat, 30);
                    }
                    lemma_key_fits(j, i);
                    if key_v(j, i) == key_v(hp as nat, pi as nat) {
                        lemma_key_inj(j, i, hp as nat, pi as nat);
                        assert(false);
                    }
                    assert(prev.coord_ok(j, i));
                    assert(prev.present_at(j, i) == old(self).present_at(j, i));
                }
                // a present parent is witnessed by a stored leaf below a child
                assert(prev.leaves_v() == lv && self.leaves_v() == lv);
                assert forall|j: nat, i: nat|
                    self.coord_ok(j, i) && !(j > hp as nat && i == t / pow2(j)) implies
                    #[trigger] self.w2r_at(j, i) by {
                    if ((self.height - j) as nat) < 30 {
                        lemma_pow2_strictly_increases((self.height - j) as nat, 30);
                    }
                    lemma_key_fits(j, i);
                    if j == hp as nat && i == pi as nat {
                        if self.present_at(j, i) {
                            lemma_region_children(hp as nat, pi as nat);
                            if lp {
                                assert(prev.w2r_at(h as nat, li as nat));
                                assert(region_has_stored(lv, h as nat, li as nat));
                                let x = choose|x: nat|
                                    (li as nat) * pow2(h as nat) <= x < ((li + 1) as nat) * pow2(
                                        h as nat,
                                    ) && lv.contains_key(x);
                                assert((pi as nat) * pow2(hp as nat) <= x < ((pi as nat) + 1)
                                    * pow2(hp as nat));
                                assert(region_has_stored(lv, hp as nat, pi as nat));
                            } else {
                                assert(rp);
                                assert(prev.w2r_at(h as nat, (li + 1) as nat));
                                assert(region_has_stored(lv, h as nat, (li + 1) as nat));
                                let x = choose|x: nat|
                                    ((li + 1) as nat) * pow2(h as nat) <= x < ((li + 1) as nat + 1)
                                        * pow2(h as nat) && lv.contains_key(x);
                                assert((pi as nat) * pow2(hp as nat) <= x < ((pi as nat) + 1)
                                    * pow2(hp as nat));
                                assert(region_has_stored(lv, hp as nat, pi as nat));
                            }
                        }
                    } else {
                        if key_v(j, i) == key_v(hp as nat, pi as nat) {
                            lemma_key_inj(j, i, hp as nat, pi as nat);
                            assert(false);
                        }
                        assert(prev.coord_ok(j, i));
                        assert(prev.w2r_at(j, i));
                        assert(self.present_at(j, i) == prev.present_at(j, i));
                    }
                }
                // presence keys still name coordinates of the tree
                assert forall|k: u64| #[trigger] self.present_node@.contains(k) implies exists|
                    j: nat,
                    i: nat,
                |
                    self.coord_ok(j, i) && k == key_v(j, i) as u64 by {
                    if k == parent_key {
                        assert(self.coord_ok(hp as nat, pi as nat) && k == key_v(
                            hp as nat,
                            pi as nat,
                        ) as u64);
                    } else {
                        assert(prev.present_node@.contains(k));
                        let ji = choose|j: nat, i: nat|
                            prev.coord_ok(j, i) && k == key_v(j, i) as u64;
                        assert(self.coord_ok(ji.0, ji.1) && k == key_v(ji.0, ji.1) as u64);
                    }
                }
                // cache entries change only near the path
                lemma_fundamental_div_mod((2 * (pi as nat)) as int, 2);
                lemma_fundamental_div_mod((2 * (pi as nat) + 1) as int, 2);
                assert((2 * (pi as nat)) as nat / 2 == pi as nat) by (nonlinear_arith);
                assert((2 * (pi as nat) + 1) as nat / 2 == pi as nat) by (nonlinear_arith);
                lemma_key_fits(0, (2 * (pi as nat)) as nat);
                lemma_key_fits(0, (2 * (pi as nat) + 1) as nat);
                assert forall|j: nat, i: nat|
                    self.coord_ok(j, i) && !near_path(t, self.height as nat, j, i) implies (
                    #[trigger] self.cached_at(j, i)) == old(self).cached_at(j, i) && (
                    self.cached_at(j, i) ==> self.cache_val(j, i) == old(self).cache_val(
                        j,
                        i,
                    )) by {
                    if ((self.height - j) as nat) < 30 {
                        lemma_pow2_strictly_increases((self.height - j) as nat, 30);
                    }
                    lemma_key_fits(j, i);
                    let kk = key_v(j, i) as u64;
                    if key_v(j, i) == key_v(hp as nat, pi as nat) {
                        lemma_key_inj(j, i, hp as nat, pi as nat);
                        assert(false);
                    }
                    if key_v(j, i) == key_v(h as nat, li as nat) {
                        lemma_key_inj(j, i, h as nat, li as nat);
                        assert(i / 2 == t / pow2((j + 1) as nat));
                        assert(false);
                    }
                    if key_v(j, i) == key_v(h as nat, (li + 1) as nat) {
                        lemma_key_inj(j, i, h as nat, (li + 1) as nat);
                        assert(i / 2 == t / pow2((j + 1) as nat));
                        assert(false);
                    }
                    if key_v(j, i) == key_v(0, (2 * (pi as nat)) as nat) {
                        lemma_key_inj(j, i, 0, (2 * (pi as nat)) as nat);
                        assert(1 <= hp as nat <= self.height as nat && i / 2 == t / pow2(
                            hp as nat,
                        ));
                        assert(false);
                    }
                    if key_v(j, i) == key_v(0, (2 * (pi as nat) + 1) as nat) {
                        lemma_key_inj(j, i, 0, (2 * (pi as nat) + 1) as nat);
                        assert(1 <= hp as nat <= self.height as nat && i / 2 == t / pow2(
                            hp as nat,
                        ));
                        assert(false);
                    }
                    if swept {
                        assert(cache_entry_same(prev.db_cache@, cache_mid, kk));
                        assert(cache_entry_same(cache_mid, self.db_cache@, kk));
                    }
                    assert(cache_entry_same(prev.db_cache@, self.db_cache@, kk));
                    assert(prev.coord_ok(j, i));
                    if prev.cached_at(j, i) {
                    }
                    assert(prev.cached_at(j, i) == old(self).cached_at(j, i) && (prev.cached_at(
                        j,
                        i,
                    ) ==> prev.cache_val(j, i) == old(self).cache_val(j, i)));
                }
            }
            h = hp;
            idx = pi;
        }
        // the path cache now holds the root hash
        proof {
            assert(t / pow2(self.height as nat) == 0) by {
                lemma_pow2_pos(self.height as nat);
                lemma_fundamental_div_mod(t as int, pow2(self.height as nat) as int);
                assert(t as int / (pow2(self.height as nat) as int) == 0) by (nonlinear_arith)
                    requires
                        0 <= t < pow2(self.height as nat),
                        pow2(self.height as nat) as int * (t as int / (pow2(self.height as nat)
                            as int)) + (t as int) % (pow2(self.height as nat) as int) == t,
                        0 <= (t as int) % (pow2(self.height as nat) as int) < pow2(
                            self.height as nat,
                        ),
                ;
            }
            lemma_key_fits(self.height as nat, 0);
        }
        let root_key = coord_key(self.height, 0);
        let new_root: Fp = match self.cache_path.get(&root_key) {
            Option::Some(f) => f.dup(),
            Option::None => {
                proof {
                    assert(false);
                }
                vstd::pervasive::unreached()
            },
        };
        let ghost fin = *self;
        self.root = new_root;
        proof {
            assert forall|j: nat, k: nat| #![trigger self.w2_at(j, k)]
                self.coord_ok(j, k) implies self.w2_at(j, k) by {
                assert(fin.coord_ok(j, k));
                assert(!(j > fin.height as nat && k == t / pow2(j)));
                assert(fin.w2_at(j, k));
                assert(self.present_at(j, k) == fin.present_at(j, k));
                assert(self.leaves_v() =~= fin.leaves_v());
            }
            assert forall|j: nat, k: nat| #![trigger self.w3_at(j, k)]
                self.coord_ok(j, k) implies self.w3_at(j, k) by {
                assert(fin.coord_ok(j, k));
                assert(!(j > fin.height as nat && k == t / pow2(j)));
                assert(fin.w3_at(j, k));
                assert(self.leaves_v() =~= fin.leaves_v());
            }
            assert forall|j: nat, k: nat| #![trigger self.w2r_at(j, k)]
                self.coord_ok(j, k) implies self.w2r_at(j, k) by {
                assert(fin.coord_ok(j, k));
                assert(!(j > fin.height as nat && k == t / pow2(j)));
                assert(fin.w2r_at(j, k));
                assert(self.present_at(j, k) == fin.present_at(j, k));
                assert(self.leaves_v() =~= fin.leaves_v());
            }
            assert forall|k: u64| #[trigger] self.present_node@.contains(k) implies exists|
                j: nat,
                i: nat,
            |
                self.coord_ok(j, i) && k == key_v(j, i) as u64 by {
                assert(fin.present_node@.contains(k));
                let ji = choose|j: nat, i: nat| fin.coord_ok(j, i) && k == key_v(j, i) as u64;
                assert(self.coord_ok(ji.0, ji.1) && k == key_v(ji.0, ji.1) as u64);
            }
            assert(self.leaves_v() =~= old(self).leaves_v());
            assert forall|k: u64| #[trigger] self.database@.contains_key(k) implies k < self.width
                && fp_wf(self.database@[k], p_of(&self.params)) by {
                assert(fin.database@.contains_key(k) && fin.database@[k] == self.database@[k]);
            }
            assert forall|k: u64| #[trigger] self.db_cache@.contains_key(k) implies fp_wf(
                self.db_cache@[k],
                p_of(&self.params),
            ) by {
                assert(fin.db_cache@.contains_key(k) && fin.db_cache@[k] == self.db_cache@[k]);
            }
            assert forall|k: u64| #[trigger] self.cache_path@.contains_key(k) implies fp_wf(
                self.cache_path@[k],
                p_of(&self.params),
            ) by {
                assert(fin.cache_path@.contains_key(k) && fin.cache_path@[k]
                    == self.cache_path@[k]);
            }
            assert forall|k: u64|
                k < self.width && self.present_node@.contains(k) implies
                #[trigger] self.database@.contains_key(k) by {
                assert(fin.present_node@.contains(k));
            }
            assert forall|k: u64| #[trigger] self.db_cache@.contains_key(k) implies k
                >= 0x200_0000_0000_0000u64 by {
                assert(fin.db_cache@.contains_key(k));
            }
            assert forall|j: nat, i: nat|
                self.coord_ok(j, i) && !on_path(t, j, i) implies (#[trigger] self.present_at(
                    j,
                    i,
                )) == old(self).present_at(j, i) by {
                assert(fin.coord_ok(j, i));
                assert(fin.present_at(j, i) == old(self).present_at(j, i));
                assert(self.present_at(j, i) == fin.present_at(j, i));
            }
            assert forall|j: nat, i: nat|
                self.coord_ok(j, i) && !near_path(t, self.height as nat, j, i) implies (
                #[trigger] self.cached_at(j, i)) == old(self).cached_at(j, i) && (self.cached_at(
                    j,
                    i,
                ) ==> self.cache_val(j, i) == old(self).cache_val(j, i)) by {
                assert(fin.coord_ok(j, i));
                if fin.cached_at(j, i) {
                }
                assert(fin.cached_at(j, i) == old(self).cached_at(j, i) && (fin.cached_at(j, i)
                    ==> fin.cache_val(j, i) == old(self).cache_val(j, i)));
                assert(self.cached_at(j, i) == fin.cached_at(j, i) && (self.cached_at(j, i)
                    ==> self.cache_val(j, i) == fin.cache_val(j, i)));
            }
        }
    }


    /// Stores `leaf` at position `coord.idx` and recomputes the path to the
    /// root. The coordinate must name a leaf inside the tree.
    pub fn insert_leaf(&mut self, coord: Coord, leaf: Fp)
        requires
            old(self).wf(),
            coord.height == 0,
            coord.idx < old(self).width,
            fp_wf(leaf, p_of(&old(self).params)),
        ensures
            final(self).wf(),
            final(self).leaves_v() == old(self).leaves_v().insert(coord.idx as nat, leaf@),
            final(self).root@ == subtree_v(
                &old(self).params,
                final(self).leaves_v(),
                old(self).height as nat,
                0,
            ),
            final(self).width == old(self).width,
            final(self).height == old(self).height,
            final(self).params == old(self).params,
            final(self).empty_table == old(self).empty_table,
            final(self).path_db == old(self).path_db,
            final(self).path_cache == old(self).path_cache,
            final(self).present_at(0, coord.idx as nat),
            forall|j: nat, i: nat|
                final(self).coord_ok(j, i) && i != (coord.idx as nat) / pow2(j) ==> (
                #[trigger] final(self).present_at(j, i)) == old(self).present_at(j, i),
            forall|j: nat, i: nat|
                final(self).coord_ok(j, i) && !near_path(
                    coord.idx as nat,
                    final(self).height as nat,
                    j,
                    i,
                ) ==> (#[trigger] final(self).cached_at(j, i)) == old(self).cached_at(j, i) && (
                final(self).cached_at(j, i) ==> final(self).cache_val(j, i) == old(self).cache_val(
                    j,
                    i,
                )),
    {
        let ghost t = coord.idx as nat;
        let ghost lv = self.leaves_v();
        proof {
            assert(pow2(30) == 0x4000_0000) by {
                lemma2_to64();
            }
            if (self.height as nat) < 30 {
                lemma_pow2_strictly_increases(self.height as nat, 30);
            }
            lemma_key_fits(0, t);
            assert(pow2(0) == 1) by {
                lemma2_to64();
            }
            assert(t / pow2(0) == t) by {
                lemma_fundamental_div_mod(t as int, 1);
            }
        }
        let key0 = coord.idx as u64;
        if self.present_node.contains(&key0) {
            // the leaf is already occupied: skip the walk when the stored
            // value equals the new one
            let unchanged: bool = match self.database.get(&key0) {
                Option::Some(f) => f.equals(&leaf),
                Option::None => false,
            };
            if unchanged {
                proof {
                    assert(self.database@.contains_key(key0));
                    assert(self.leaves_v().insert(t, leaf@) =~= self.leaves_v());
                    assert(self.present_at(0, t));
                }
                return ;
            }
        }
        self.present_node.insert(key0);
        self.database.insert(key0, leaf);
        self.cache_path = HashMap::new();
        let leaf_copy = match self.database.get(&key0) {
            Option::Some(f) => f.dup(),
            Option::None => {
                proof {
                    assert(false);
                }
                vstd::pervasive::unreached()
            },
        };
        self.cache_path.insert(key0, leaf_copy);
        proof {
            let lv2 = lv.insert(t, leaf@);
            assert(self.leaves_v() =~= lv2);
            assert(leaf_of(lv2, t) == leaf@);
            assert forall|i: nat| i != t implies leaf_of(lv, i) == #[trigger] leaf_of(
                lv2,
                i,
            ) by {
            }
            assert forall|k: u64| #[trigger] self.database@.contains_key(k) implies k < self.width
                && fp_wf(self.database@[k], p_of(&self.params)) by {
                if k != key0 {
                    assert(old(self).database@.contains_key(k) && old(self).database@[k]
                        == self.database@[k]);
                }
            }
            assert forall|k: u64|
                k < self.width && self.present_node@.contains(k) implies
                #[trigger] self.database@.contains_key(k) by {
                if k != key0 {
                    assert(old(self).present_node@.contains(k));
                    assert(old(self).database@.contains_key(k));
                }
            }
            assert forall|k: u64| #[trigger] self.present_node@.contains(k) implies exists|
                j: nat,
                i: nat,
            |
                self.coord_ok(j, i) && k == key_v(j, i) as u64 by {
                if k == key0 {
                    assert(self.coord_ok(0, t) && k == key_v(0, t) as u64);
                } else {
                    assert(old(self).present_node@.contains(k));
                    let ji = choose|j: nat, i: nat|
                        old(self).coord_ok(j, i) && k == key_v(j, i) as u64;
                    assert(self.coord_ok(ji.0, ji.1) && k == key_v(ji.0, ji.1) as u64);
                }
            }
            assert(self.base_wf());
            assert forall|x: nat| lv.contains_key(x) implies #[trigger] lv2.contains_key(x) by {
            }
            assert(lv2.contains_key(t));
            self.lemma_off_path_sound(*old(self), t, lv, lv2);
            assert(self.update_ready(t));
        }
        let ghost mid = *self;
        self.update_tree(coord);
        proof {
            assert(self.leaves_v() =~= lv.insert(t, leaf@));
            // the leaf's presence bit survives the walk, which never touches
            // leaf-level coordinates
            assert(mid.present_at(0, t));
            assert(self.coord_ok(0, t) && !on_path(t, 0, t));
            assert(self.present_at(0, t) == mid.present_at(0, t));
            // presence away from the path is what it was
            assert forall|j: nat, i: nat|
                self.coord_ok(j, i) && i != t / pow2(j) implies (#[trigger] self.present_at(j, i))
                    == old(self).present_at(j, i) by {
                if ((self.height - j) as nat) < 30 {
                    lemma_pow2_strictly_increases((self.height - j) as nat, 30);
                }
                lemma_key_fits(j, i);
                if key_v(j, i) == key_v(0, t) {
                    lemma_key_inj(j, i, 0, t);
                    assert(false);
                }
                assert(mid.present_at(j, i) == old(self).present_at(j, i));
                assert(mid.coord_ok(j, i) && !on_path(t, j, i));
                assert(self.present_at(j, i) == mid.present_at(j, i));
            }
            // cache entries away from the path are what they were
            assert forall|j: nat, i: nat|
                self.coord_ok(j, i) && !near_path(t, self.height as nat, j, i) implies (
                #[trigger] self.cached_at(j, i)) == old(self).cached_at(j, i) && (self.cached_at(
                    j,
                    i,
                ) ==> self.cache_val(j, i) == old(self).cache_val(j, i)) by {
                assert(mid.db_cache@ == old(self).db_cache@);
                assert(mid.coord_ok(j, i) && !near_path(t, mid.height as nat, j, i));
                if mid.cached_at(j, i) {
                }
                assert(self.cached_at(j, i) == mid.cached_at(j, i) && (self.cached_at(j, i)
                    ==> self.cache_val(j, i) == mid.cache_val(j, i)));
            }
        }
    }

    /// A state whose presence set and node cache agree with a sound earlier
    /// state away from leaf `t`, and whose leaves agree with the earlier
    /// ones away from `t`, is sound away from the strict ancestors of `t`.
    proof fn lemma_off_path_sound(
        &self,
        before: BigMerkleTree,
        t: nat,
        lv1: Map<nat, nat>,
        lv2: Map<nat, nat>,
    )
        requires
            before.w2_all(),
            before.w3_all(),
            before.width == self.width,
            before.height == self.height,
            before.params == self.params,
            self.base_wf(),
            t < self.width,
            self.leaves_v() == lv2,
            before.leaves_v() == lv1,
            forall|i: nat| i != t ==> leaf_of(lv1, i) == #[trigger] leaf_of(lv2, i),
            before.w2r_all(),
            forall|x: nat| lv1.contains_key(x) ==> #[trigger] lv2.contains_key(x),
            lv2.contains_key(t),
            self.present_node@ == before.present_node@.insert(t as u64),
            self.db_cache@ == before.db_cache@,
        ensures
            self.w2_above(t, 0),
            self.w2r_above(t, 0),
            self.w3_above(t, 0),
    {
        assert(key_v(0, t) == t);
        assert(pow2(0) == 1) by {
            lemma2_to64();
        }
        assert(pow2(30) == 0x4000_0000) by {
            lemma2_to64();
        }
        if (self.height as nat) < 30 {
            lemma_pow2_strictly_increases(self.height as nat, 30);
        }
        lemma_pow2_strictly_increases(30, 57);
        assert(pow2(57) == key_stride()) by {
            vstd::arithmetic::power2::lemma2_to64_rest();
        }
        assert(t < key_stride());
        assert(t * pow2(0) == t && (t + 1) * pow2(0) == t + 1) by (nonlinear_arith)
            requires
                pow2(0) == 1,
        ;
        assert forall|j: nat, k: nat| #![trigger self.w2r_at(j, k)]
            self.coord_ok(j, k) && !(j > 0 && k == t / pow2(j)) implies self.w2r_at(j, k) by {
            if ((self.height - j) as nat) < 30 {
                lemma_pow2_strictly_increases((self.height - j) as nat, 30);
            }
            lemma_pow2_strictly_increases(30, 57);
            assert(pow2(57) == key_stride()) by {
                vstd::arithmetic::power2::lemma2_to64_rest();
            }
            lemma_key_fits(j, k);
            if j == 0 && k == t {
                if self.present_at(0, t) {
                    assert(t * pow2(0) <= t < (t + 1) * pow2(0));
                    assert(region_has_stored(lv2, 0, t));
                }
            } else {
                assert(before.coord_ok(j, k));
                assert(before.w2r_at(j, k));
                if key_v(j, k) == key_v(0, t) {
                    lemma_key_inj(j, k, 0, t);
                    assert(false);
                }
                assert(self.present_at(j, k) == before.present_at(j, k));
                if self.present_at(j, k) {
                    assert(region_has_stored(lv1, j, k));
                    let x = choose|x: nat|
                        k * pow2(j) <= x < (k + 1) * pow2(j) && lv1.contains_key(x);
                    assert(lv2.contains_key(x));
                    assert(region_has_stored(lv2, j, k));
                }
            }
        }
        assert(pow2(30) == 0x4000_0000) by {
            lemma2_to64();
        }
        if (self.height as nat) < 30 {
            lemma_pow2_strictly_increases(self.height as nat, 30);
        }
        lemma_pow2_strictly_increases(30, 57);
        assert(pow2(57) == key_stride()) by {
            vstd::arithmetic::power2::lemma2_to64_rest();
        }
        assert forall|j: nat, k: nat| #![trigger self.w2_at(j, k)]
            self.coord_ok(j, k) && !(j > 0 && k == t / pow2(j)) implies self.w2_at(j, k) by {
            if ((self.height - j) as nat) < 30 {
                lemma_pow2_strictly_increases((self.height - j) as nat, 30);
            }
            lemma_key_fits(j, k);
            if j == 0 && k == t {
                assert(self.present_node@.contains(t as u64));
                assert(self.present_at(0, t));
            } else {
                assert(before.coord_ok(j, k));
                assert(before.w2_at(j, k));
                if key_v(j, k) == key_v(0, t) {
                    lemma_key_inj(j, k, 0, t);
                    assert(false);
                }
                assert(self.present_at(j, k) == before.present_at(j, k));
                if !self.present_at(j, k) {
                    // the region of a non-ancestor misses the changed leaf
                    assert(!before.present_at(j, k));
                    assert(before.present_at(j, k) || region_clear(before.leaves_v(), j, k));
                    assert(region_clear(before.leaves_v(), j, k));
                    assert(before.leaves_v() == lv1);
                    assert(region_clear(lv1, j, k));
                    lemma_region_char(j, k, t);
                    if j == 0 {
                        assert(pow2(0) == 1) by {
                            lemma2_to64();
                        }
                        assert(t / pow2(0) == t) by {
                            lemma_fundamental_div_mod(t as int, 1);
                        }
                    }
                    assert(t / pow2(j) != k);
                    assert(!(k * pow2(j) <= t < (k + 1) * pow2(j)));
                    assert forall|i: nat|
                        k * pow2(j) <= i < (k + 1) * pow2(j) implies leaf_of(lv2, i) == 0 by {
                        assert(leaf_of(lv1, i) == 0);
                        assert(i != t);
                    }
                    assert(region_clear(lv2, j, k));
                }
            }
        }
        assert forall|j: nat, k: nat| #![trigger self.w3_at(j, k)]
            self.coord_ok(j, k) && !(j > 0 && k == t / pow2(j)) implies self.w3_at(j, k) by {
            if ((self.height - j) as nat) < 30 {
                lemma_pow2_strictly_increases((self.height - j) as nat, 30);
            }
            lemma_key_fits(j, k);
            if j == 0 && k == t {
                assert(key_v(j, k) < key_stride());
                assert(!self.cached_at(j, k));
            } else {
                assert(before.coord_ok(j, k));
                assert(before.w3_at(j, k));
                if key_v(j, k) == key_v(0, t) {
                    lemma_key_inj(j, k, 0, t);
                    assert(false);
                }
                assert(self.present_at(j, k) == before.present_at(j, k));
                assert(self.cached_at(j, k) == before.cached_at(j, k) && (self.cached_at(j, k)
                    ==> self.cache_val(j, k) == before.cache_val(j, k)));
                if self.present_at(j, k) && self.cached_at(j, k) {
                    lemma_region_char(j, k, t);
                    if j == 0 {
                        assert(pow2(0) == 1) by {
                            lemma2_to64();
                        }
                        assert(t / pow2(0) == t) by {
                            lemma_fundamental_div_mod(t as int, 1);
                        }
                    }
                    assert(t / pow2(j) != k);
                    assert forall|i: nat|
                        k * pow2(j) <= i < (k + 1) * pow2(j) implies leaf_of(lv1, i) == leaf_of(
                        lv2,
                        i,
                    ) by {
                        assert(i != t);
                    }
                    lemma_subtree_frame(&self.params, lv1, lv2, j, k);
                }
            }
        }
    }

    /// Clears the leaf at `coord.idx` and recomputes the path to the root.
    /// Clearing an already empty leaf leaves the root untouched.
    pub fn remove_leaf(&mut self, coord: Coord)
        requires
            old(self).wf(),
            coord.height == 0,
            coord.idx < old(self).width,
        ensures
            final(self).wf(),
            final(self).leaves_v() == old(self).leaves_v().remove(coord.idx as nat),
            final(self).root@ == subtree_v(
                &old(self).params,
                final(self).leaves_v(),
                old(self).height as nat,
                0,
            ),
            final(self).width == old(self).width,
            final(self).height == old(self).height,
            final(self).params == old(self).params,
            final(self).empty_table == old(self).empty_table,
            final(self).path_db == old(self).path_db,
            final(self).path_cache == old(self).path_cache,
            !final(self).present_at(0, coord.idx as nat),
            forall|j: nat, i: nat|
                final(self).coord_ok(j, i) && i != (coord.idx as nat) / pow2(j) ==> (
                #[trigger] final(self).present_at(j, i)) == old(self).present_at(j, i),
            forall|j: nat, i: nat|
                final(self).coord_ok(j, i) && !near_path(
                    coord.idx as nat,
                    final(self).height as nat,
                    j,
                    i,
                ) ==> (#[trigger] final(self).cached_at(j, i)) == old(self).cached_at(j, i) && (
                final(self).cached_at(j, i) ==> final(self).cache_val(j, i) == old(self).cache_val(
                    j,
                    i,
                )),
            !old(self).database@.contains_key(coord.idx as u64) ==> final(self).present_node@
                == old(self).present_node@ && final(self).db_cache@ == old(self).db_cache@
                && final(self).root == old(self).root,
    {
        let ghost t = coord.idx as nat;
        let ghost lv = self.leaves_v();
        proof {
            assert(pow2(30) == 0x4000_0000) by {
                lemma2_to64();
            }
            if (self.height as nat) < 30 {
                lemma_pow2_strictly_increases(self.height as nat, 30);
            }
            lemma_pow2_strictly_increases(30, 57);
            assert(pow2(57) == key_stride()) by {
                vstd::arithmetic::power2::lemma2_to64_rest();
            }
            lemma_key_fits(0, t);
            assert(pow2(0) == 1) by {
                lemma2_to64();
            }
            assert(t / pow2(0) == t) by {
                lemma_fundamental_div_mod(t as int, 1);
            }
        }
        let key0 = coord.idx as u64;
        self.present_node.remove(&key0);
        self.cache_path = HashMap::new();
        self.cache_path.insert(key0, Fp::zero());
        let res = self.remove_from_db(coord.idx);
        proof {
            assert(self.leaves_v() =~= lv.remove(t));
            assert forall|k: u64| #[trigger] self.database@.contains_key(k) implies k < self.width
                && fp_wf(self.database@[k], p_of(&self.params)) by {
                assert(old(self).database@.contains_key(k) && old(self).database@[k]
                    == self.database@[k]);
            }
            assert forall|k: u64|
                k < self.width && self.present_node@.contains(k) implies
                #[trigger] self.database@.contains_key(k) by {
                assert(k != key0);
                assert(old(self).present_node@.contains(k));
                assert(old(self).database@.contains_key(k));
            }
            assert forall|k: u64| #[trigger] self.present_node@.contains(k) implies exists|
                j: nat,
                i: nat,
            |
                self.coord_ok(j, i) && k == key_v(j, i) as u64 by {
                assert(old(self).present_node@.contains(k));
                let ji = choose|j: nat, i: nat|
                    old(self).coord_ok(j, i) && k == key_v(j, i) as u64;
                assert(self.coord_ok(ji.0, ji.1) && k == key_v(ji.0, ji.1) as u64);
            }
            assert(self.base_wf());
        }
        match res {
            Option::Some(_) => {
                proof {
                    let lv2 = lv.remove(t);
                    assert(leaf_of(lv2, t) == 0);
                    // soundness away from the path: presence only changed at
                    // the cleared leaf, which now holds nothing
                    assert forall|j: nat, k: nat| #![trigger self.w2_at(j, k)]
                        self.coord_ok(j, k) && !(j > 0 && k == t / pow2(j)) implies self.w2_at(
                        j,
                        k,
                    ) by {
                        if j == 0 && k == t {
                            assert(region_clear(lv2, 0, t)) by {
                                lemma_pow2_pos(0);
                                assert(pow2(0) == 1) by {
                                    lemma2_to64();
                                }
                                assert forall|i: nat|
                                    t * pow2(0) <= i < (t + 1) * pow2(0) implies leaf_of(lv2, i)
                                    == 0 by {
                                    assert(t * pow2(0) == t && (t + 1) * pow2(0) == t + 1)
                                        by (nonlinear_arith)
                                        requires
                                            pow2(0) == 1,
                                    ;
                                }
                            }
                        } else {
                            assert(old(self).w2_at(j, k));
                            if ((self.height - j) as nat) < 30 {
                                lemma_pow2_strictly_increases((self.height - j) as nat, 30);
                            }
                            lemma_key_fits(j, k);
                            if key_v(j, k) == key_v(0, t) {
                                lemma_key_inj(j, k, 0, t);
                                assert(false);
                            }
                            assert(self.present_at(j, k) == old(self).present_at(j, k));
                            if !self.present_at(j, k) {
                                lemma_region_char(j, k, t);
                                assert forall|i: nat|
                                    k * pow2(j) <= i < (k + 1) * pow2(j) implies leaf_of(lv2, i)
                                    == 0 by {
                                    assert(leaf_of(lv, i) == 0);
                                }
                            }
                        }
                    }
                    assert forall|j: nat, k: nat| #![trigger self.w3_at(j, k)]
                        self.coord_ok(j, k) && !(j > 0 && k == t / pow2(j)) implies self.w3_at(
                        j,
                        k,
                    ) by {
                        if ((self.height - j) as nat) < 30 {
                            lemma_pow2_strictly_increases((self.height - j) as nat, 30);
                        }
                        lemma_key_fits(j, k);
                        if j == 0 && k == t {
                            assert(key_v(j, k) < key_stride());
                            assert(!self.cached_at(j, k));
                        } else {
                            assert(old(self).w3_at(j, k));
                            if key_v(j, k) == key_v(0, t) {
                                lemma_key_inj(j, k, 0, t);
                                assert(false);
                            }
                            assert(self.present_at(j, k) == old(self).present_at(j, k));
                            if self.present_at(j, k) && self.cached_at(j, k) {
                                lemma_region_char(j, k, t);
                                assert forall|i: nat|
                                    k * pow2(j) <= i < (k + 1) * pow2(j) implies leaf_of(lv, i)
                                    == leaf_of(lv2, i) by {
                                    assert(i != t);
                                }
                                lemma_subtree_frame(&self.params, lv, lv2, j, k);
                            }
                        }
                    }
                    assert(pow2(0) == 1) by {
                        lemma2_to64();
                    }
                    assert forall|j: nat, k: nat| #![trigger self.w2r_at(j, k)]
                        self.coord_ok(j, k) && !(j > 0 && k == t / pow2(j)) implies self.w2r_at(
                        j,
                        k,
                    ) by {
                        if ((self.height - j) as nat) < 30 {
                            lemma_pow2_strictly_increases((self.height - j) as nat, 30);
                        }
                        lemma_key_fits(j, k);
                        if j == 0 && k == t {
                            assert(!self.present_node@.contains(key0));
                            assert(!self.present_at(0, t));
                        } else {
                            assert(old(self).coord_ok(j, k));
                            assert(old(self).w2r_at(j, k));
                            if key_v(j, k) == key_v(0, t) {
                                lemma_key_inj(j, k, 0, t);
                                assert(false);
                            }
                            assert(self.present_at(j, k) == old(self).present_at(j, k));
                            if self.present_at(j, k) {
                                assert(region_has_stored(lv, j, k));
                                let x = choose|x: nat|
                                    k * pow2(j) <= x < (k + 1) * pow2(j) && lv.contains_key(x);
                                lemma_region_char(j, k, t);
                                if j == 0 {
                                    assert(t / pow2(0) == t) by {
                                        lemma_fundamental_div_mod(t as int, 1);
                                    }
                                }
                                assert(t / pow2(j) != k);
                                assert(!(k * pow2(j) <= t < (k + 1) * pow2(j)));
                                assert(x != t);
                                assert(lv2.contains_key(x));
                                assert(region_has_stored(lv2, j, k));
                            }
                        }
                    }
                    assert(self.update_ready(t));
                }
                let ghost mid = *self;
                self.update_tree(coord);
                proof {
                    assert(self.leaves_v() =~= lv.remove(t));
                    // the cleared leaf's presence bit stays cleared: the walk
                    // never touches leaf-level coordinates
                    assert(!mid.present_at(0, t));
                    assert(self.coord_ok(0, t) && !on_path(t, 0, t));
                    assert(self.present_at(0, t) == mid.present_at(0, t));
                    assert forall|j: nat, i: nat|
                        self.coord_ok(j, i) && i != t / pow2(j) implies (#[trigger] self.present_at(
                            j,
                            i,
                        )) == old(self).present_at(j, i) by {
                        if ((self.height - j) as nat) < 30 {
                            lemma_pow2_strictly_increases((self.height - j) as nat, 30);
                        }
                        lemma_key_fits(j, i);
                        if key_v(j, i) == key_v(0, t) {
                            lemma_key_inj(j, i, 0, t);
                            assert(false);
                        }
                        assert(mid.present_at(j, i) == old(self).present_at(j, i));
                        assert(mid.coord_ok(j, i) && !on_path(t, j, i));
                        assert(self.present_at(j, i) == mid.present_at(j, i));
                    }
                    assert forall|j: nat, i: nat|
                        self.coord_ok(j, i) && !near_path(t, self.height as nat, j, i) implies (
                        #[trigger] self.cached_at(j, i)) == old(self).cached_at(j, i) && (
                        self.cached_at(j, i) ==> self.cache_val(j, i) == old(self).cache_val(
                            j,
                            i,
                        )) by {
                        assert(mid.db_cache@ == old(self).db_cache@);
                        assert(mid.coord_ok(j, i) && !near_path(t, mid.height as nat, j, i));
                        if mid.cached_at(j, i) {
                        }
                        assert(self.cached_at(j, i) == mid.cached_at(j, i) && (self.cached_at(j, i)
                            ==> self.cache_val(j, i) == mid.cache_val(j, i)));
                    }
                }
            },
            Option::None => {
                // nothing was stored: the leaf map and the root are unchanged,
                // and the leaf could not have been marked present
                proof {
                    let lv2 = lv.remove(t);
                    assert(lv2 =~= lv);
                    assert(self.leaves_v() =~= lv);
                    assert(!old(self).present_node@.contains(key0));
                    assert(self.present_node@ =~= old(self).present_node@);
                    assert(!self.present_at(0, t));
                    assert forall|j: nat, k: nat| #![trigger self.w2r_at(j, k)]
                        self.coord_ok(j, k) implies self.w2r_at(j, k) by {
                        assert(old(self).coord_ok(j, k));
                        assert(old(self).w2r_at(j, k));
                        assert(self.present_at(j, k) == old(self).present_at(j, k));
                    }
                    assert forall|j: nat, k: nat| #![trigger self.w2_at(j, k)]
                        self.coord_ok(j, k) implies self.w2_at(j, k) by {
                        if ((self.height - j) as nat) < 30 {
                            lemma_pow2_strictly_increases((self.height - j) as nat, 30);
                        }
                        lemma_key_fits(j, k);
                        if j == 0 && k == t {
                            assert(region_clear(lv, 0, t)) by {
                                lemma_pow2_pos(0);
                                assert(pow2(0) == 1) by {
                                    lemma2_to64();
                                }
                                assert forall|i: nat|
                                    t * pow2(0) <= i < (t + 1) * pow2(0) implies leaf_of(lv, i)
                                    == 0 by {
                                    assert(t * pow2(0) == t && (t + 1) * pow2(0) == t + 1)
                                        by (nonlinear_arith)
                                        requires
                                            pow2(0) == 1,
                                    ;
                                }
                            }
                        } else {
                            assert(old(self).w2_at(j, k));
                            if key_v(j, k) == key_v(0, t) {
                                lemma_key_inj(j, k, 0, t);
                                assert(false);
                            }
                            assert(self.present_at(j, k) == old(self).present_at(j, k));
                        }
                    }
                    assert forall|j: nat, k: nat| #![trigger self.w3_at(j, k)]
                        self.coord_ok(j, k) implies self.w3_at(j, k) by {
                        if ((self.height - j) as nat) < 30 {
                            lemma_pow2_strictly_increases((self.height - j) as nat, 30);
                        }
                        lemma_key_fits(j, k);
                        if j == 0 && k == t {
                            assert(key_v(j, k) < key_stride());
                            assert(!self.cached_at(j, k));
                        } else {
                            assert(old(self).w3_at(j, k));
                            if key_v(j, k) == key_v(0, t) {
                                lemma_key_inj(j, k, 0, t);
                                assert(false);
                            }
                            assert(self.present_at(j, k) == old(self).present_at(j, k));
                        }
                    }
                }
            },
        }
    }


    /// Applies a batch of leaf operations in submission order and returns
    /// the root after the last one.
    pub fn process_leaves_normal(&mut self, lidx: Vec<OperationLeaf>) -> (r: Fp)
        requires
            old(self).wf(),
            forall|i: int|
                0 <= i < lidx.len() ==> op_valid(
                    #[trigger] lidx@[i],
                    old(self).width as nat,
                    p_of(&old(self).params),
                ),
        ensures
            final(self).wf(),
            final(self).leaves_v() == apply_ops(old(self).leaves_v(), lidx@),
            fp_wf(r, p_of(&old(self).params)),
            r@ == final(self).root@,
            r@ == subtree_v(
                &old(self).params,
                final(self).leaves_v(),
                old(self).height as nat,
                0,
            ),
            final(self).width == old(self).width,
            final(self).height == old(self).height,
            final(self).params == old(self).params,
    {
        let ghost lv0 = self.leaves_v();
        let mut k: usize = 0;
        proof {
            assert(lidx@.take(0) =~= Seq::<OperationLeaf>::empty());
        }
        while k < lidx.len()
            invariant
                k <= lidx.len(),
                self.wf(),
                self.leaves_v() == apply_ops(lv0, lidx@.take(k as int)),
                self.width == old(self).width,
                self.height == old(self).height,
                self.params == old(self).params,
                lv0 == old(self).leaves_v(),
                forall|i: int|
                    0 <= i < lidx.len() ==> op_valid(
                        #[trigger] lidx@[i],
                        old(self).width as nat,
                        p_of(&old(self).params),
                    ),
            decreases lidx.len() - k,
        {
            let ghost before = apply_ops(lv0, lidx@.take(k as int));
            let op = &lidx[k];
            match op.action {
                ActionLeaf::Insert => {
                    match &op.hash {
                        Option::Some(f) => {
                            self.insert_leaf(op.coord, f.dup());
                        },
                        Option::None => {
                            proof {
                                assert(op_valid(lidx@[k as int], old(self).width as nat, p_of(&old(self).params)));
                                assert(false);
                            }
                        },
                    }
                },
                ActionLeaf::Remove => {
                    self.remove_leaf(op.coord);
                },
            }
            proof {
                lemma_apply_ops_snoc(lv0, lidx@.take(k as int), lidx@[k as int]);
                assert(lidx@.take(k + 1) =~= lidx@.take(k as int).push(lidx@[k as int]));
                assert(self.leaves_v() == apply_op(before, lidx@[k as int]));
            }
            k += 1;
        }
        proof {
            assert(lidx@.take(lidx.len() as int) =~= lidx@);
        }
        self.root.dup()
    }

    /// Sweeps up to `depth` levels of stale entries out of the node cache.
    ///
    /// A call with `depth` zero changes nothing. Otherwise the sweep is
    /// shallow: it inspects the two leaf coordinates whose indices double
    /// `coord`'s, whatever its height, drops `coord`'s entry when either of
    /// them is absent from the presence set, and recurses one level into
    /// the present one; presence-gated reads tolerate what it leaves
    /// behind.
    pub fn remove_subtree_from_cache(&mut self, coord: Coord, depth: usize)
        requires
            coord.height < 64,
            depth <= 2,
            depth >= 1 ==> coord.idx < 0x4000_0000,
            depth == 2 ==> coord.idx < 0x2000_0000,
        ensures
            map_shrinks(old(self).db_cache@, final(self).db_cache@),
            *final(self) == (BigMerkleTree { db_cache: final(self).db_cache, ..*old(self) }),
            depth == 0 ==> final(self).db_cache@ == old(self).db_cache@,
            depth >= 1 && !(old(self).present_at(0, (2 * coord.idx) as nat) && old(
                self,
            ).present_at(0, (2 * coord.idx + 1) as nat)) ==> !final(self).db_cache@.contains_key(
                key_v(coord.height as nat, coord.idx as nat) as u64,
            ),
            forall|k: u64|
                k != key_v(coord.height as nat, coord.idx as nat) as u64 && (depth <= 1 || (k
                    != key_v(0, (2 * coord.idx) as nat) as u64 && k != key_v(
                    0,
                    (2 * coord.idx + 1) as nat,
                ) as u64)) ==> #[trigger] cache_entry_same(
                    old(self).db_cache@,
                    final(self).db_cache@,
                    k,
                ),
        decreases depth,
    {
        if depth == 0 {
            proof {
                assert forall|k: u64| #[trigger] cache_entry_same(
                    old(self).db_cache@,
                    self.db_cache@,
                    k,
                ) by {
                }
            }
            return ;
        }
        let key = coord_key(coord.height, coord.idx);
        proof {
            lemma_key_fits(coord.height as nat, coord.idx as nat);
        }
        let left = Coord { height: 0, idx: 2 * coord.idx };
        let right = Coord { height: 0, idx: 2 * coord.idx + 1 };
        let left_key = coord_key(left.height, left.idx);
        let right_key = coord_key(right.height, right.idx);
        let lp = self.present_node.contains(&left_key);
        let rp = self.present_node.contains(&right_key);
        if !lp && !rp {
            if self.contains_key_in_cache(coord) {
                self.remove_node_from_cache(coord);
            }
            proof {
                lemma_shrinks_remove(old(self).db_cache@, key);
                assert(!self.db_cache@.contains_key(key));
                assert forall|k: u64| k != key implies #[trigger] cache_entry_same(
                    old(self).db_cache@,
                    self.db_cache@,
                    k,
                ) by {
                }
            }
            return ;
        }
        if !lp || !rp {
            if self.contains_key_in_cache(coord) {
                self.remove_node_from_cache(coord);
            }
            proof {
                lemma_shrinks_remove(old(self).db_cache@, key);
                assert(!self.db_cache@.contains_key(key));
            }
            let ghost mid = self.db_cache@;
            if lp {
                self.remove_subtree_from_cache(left, depth - 1);
            }
            if rp {
                self.remove_subtree_from_cache(right, depth - 1);
            }
            proof {
                lemma_shrinks_trans(old(self).db_cache@, mid, self.db_cache@);
                assert(!self.db_cache@.contains_key(key));
                assert forall|k: u64|
                    k != key && (depth <= 1 || (k != left_key && k != right_key)) implies
                    #[trigger] cache_entry_same(old(self).db_cache@, self.db_cache@, k) by {
                    assert(cache_entry_same(old(self).db_cache@, mid, k));
                    if depth <= 1 {
                        // the nested sweeps run at depth zero and change nothing
                        assert(cache_entry_same(mid, self.db_cache@, k));
                    } else {
                        assert(cache_entry_same(mid, self.db_cache@, k));
                    }
                }
            }
        } else {
            proof {
                assert forall|k: u64| k != key implies #[trigger] cache_entry_same(
                    old(self).db_cache@,
                    self.db_cache@,
                    k,
                ) by {
                }
            }
        }
    }
}

} // verus!
