//! The Poseidon permutation and sponge over a 753-bit scalar field.
//!
//! The permutation walks the round-constant table once: an initial constant
//! addition, `rf` full rounds, `rp` partial rounds, `rf - 1` more full rounds
//! and a bare S-box row at the end — no matrix mix and no constant addition
//! after the final S-boxes. The S-box is the inversion map with zero fixed.
//! The sponge absorbs two elements per permutation call, adds the domain
//! constant to the capacity lane for every absorbed block, and pads a short
//! final block by absorbing the single leftover element alone.
use vstd::prelude::*;
use crate::field::{Fp, fp_wf, fp_add, fp_mul, fp_sbox, sbox_v};
use crate::params::{PoseidonParams, params_wf, p_of};

verus! {

/// Field addition at the value level.
pub open spec fn fadd(a: nat, b: nat, m: nat) -> nat {
    (a + b) % m
}

/// Field multiplication at the value level.
pub open spec fn fmul(a: nat, b: nat, m: nat) -> nat {
    (a * b) % m
}

/// The values of a sequence of field elements.
pub open spec fn vals_of(s: Seq<Fp>) -> Seq<nat> {
    s.map_values(|f: Fp| f@)
}

/// Round constant `i` of a bundle, as a value.
pub open spec fn rc_at(p: &PoseidonParams, i: int) -> nat {
    p.round_cst@[i]@
}

/// MDS entry `i` of a bundle (row-major), as a value.
pub open spec fn mds_at(p: &PoseidonParams, i: int) -> nat {
    p.mds@[i]@
}

/// Adds the three round constants starting at `i`, one per lane.
pub open spec fn arc3_v(p: &PoseidonParams, s: (nat, nat, nat), i: int) -> (nat, nat, nat) {
    (
        fadd(s.0, rc_at(p, i), p_of(p)),
        fadd(s.1, rc_at(p, i + 1), p_of(p)),
        fadd(s.2, rc_at(p, i + 2), p_of(p)),
    )
}

/// One row of the MDS mix, accumulated left to right.
pub open spec fn mix_row_v(p: &PoseidonParams, r: int, s: (nat, nat, nat)) -> nat {
    fadd(
        fadd(fmul(mds_at(p, 3 * r), s.0, p_of(p)), fmul(mds_at(p, 3 * r + 1), s.1, p_of(p)), p_of(p)),
        fmul(mds_at(p, 3 * r + 2), s.2, p_of(p)),
        p_of(p),
    )
}

/// The MDS matrix applied to the state.
pub open spec fn mix_v(p: &PoseidonParams, s: (nat, nat, nat)) -> (nat, nat, nat) {
    (mix_row_v(p, 0, s), mix_row_v(p, 1, s), mix_row_v(p, 2, s))
}

/// The S-box on every lane.
pub open spec fn sbox3_v(p: &PoseidonParams, s: (nat, nat, nat)) -> (nat, nat, nat) {
    (sbox_v(s.0, p_of(p)), sbox_v(s.1, p_of(p)), sbox_v(s.2, p_of(p)))
}

/// The S-box on the first lane only.
pub open spec fn sbox1_v(p: &PoseidonParams, s: (nat, nat, nat)) -> (nat, nat, nat) {
    (sbox_v(s.0, p_of(p)), s.1, s.2)
}

/// A full round: S-box on every lane, mix, then constants at `i`.
pub open spec fn full_round_v(p: &PoseidonParams, s: (nat, nat, nat), i: int) -> (nat, nat, nat) {
    arc3_v(p, mix_v(p, sbox3_v(p, s)), i)
}

/// A partial round: S-box on the first lane, mix, then constants at `i`.
pub open spec fn partial_round_v(p: &PoseidonParams, s: (nat, nat, nat), i: int) -> (
    nat,
    nat,
    nat,
) {
    arc3_v(p, mix_v(p, sbox1_v(p, s)), i)
}

/// `n` full rounds starting at constant index `i`.
pub open spec fn full_rounds_v(p: &PoseidonParams, s: (nat, nat, nat), i: int, n: nat) -> (
    nat,
    nat,
    nat,
)
    decreases n,
{
    if n == 0 {
        s
    } else {
        full_rounds_v(p, full_round_v(p, s, i), i + 3, (n - 1) as nat)
    }
}

/// `n` partial rounds starting at constant index `i`.
pub open spec fn partial_rounds_v(p: &PoseidonParams, s: (nat, nat, nat), i: int, n: nat) -> (
    nat,
    nat,
    nat,
)
    decreases n,
{
    if n == 0 {
        s
    } else {
        partial_rounds_v(p, partial_round_v(p, s, i), i + 3, (n - 1) as nat)
    }
}

/// The whole permutation at the value level.
#[verifier::opaque]
pub open spec fn perm_v(p: &PoseidonParams, s: (nat, nat, nat)) -> (nat, nat, nat) {
    let s1 = arc3_v(p, s, 0);
    let s2 = full_rounds_v(p, s1, 3, p.rf as nat);
    let s3 = partial_rounds_v(p, s2, 3 + 3 * p.rf, p.rp as nat);
    let s4 = full_rounds_v(p, s3, 3 + 3 * p.rf + 3 * p.rp, (p.rf - 1) as nat);
    sbox3_v(p, s4)
}

/// Absorbing a sequence of values into a state: rate-two blocks, then at most
/// one leftover element with the capacity constant.
pub open spec fn absorb_v(p: &PoseidonParams, s: (nat, nat, nat), input: Seq<nat>) -> (
    nat,
    nat,
    nat,
)
    decreases input.len(),
{
    if input.len() >= 2 {
        absorb_v(
            p,
            perm_v(
                p,
                (
                    fadd(s.0, input[0], p_of(p)),
                    fadd(s.1, input[1], p_of(p)),
                    fadd(s.2, p.c2@, p_of(p)),
                ),
            ),
            input.skip(2),
        )
    } else if input.len() == 1 {
        perm_v(p, (fadd(s.0, input[0], p_of(p)), s.1, fadd(s.2, p.c2@, p_of(p))))
    } else {
        s
    }
}

/// The state every hash starts from: the permutation of the zero state.
pub open spec fn init_state_v(p: &PoseidonParams) -> (nat, nat, nat) {
    perm_v(p, (0, 0, 0))
}

/// The sponge digest of a sequence of values.
pub open spec fn hash_v(p: &PoseidonParams, input: Seq<nat>) -> nat {
    absorb_v(p, init_state_v(p), input).0
}

/// The two-to-one hash used by the Merkle tree.
pub open spec fn h2_v(p: &PoseidonParams, x: nat, y: nat) -> nat {
    hash_v(p, seq![x, y])
}

/// Well-formed state triple.
pub open spec fn state_wf(s0: Fp, s1: Fp, s2: Fp, m: nat) -> bool {
    fp_wf(s0, m) && fp_wf(s1, m) && fp_wf(s2, m)
}

/// Adds the three round constants starting at `idx` to the state.
fn arc3(p: &PoseidonParams, s0: Fp, s1: Fp, s2: Fp, idx: usize) -> (r: (Fp, Fp, Fp))
    requires
        params_wf(p),
        state_wf(s0, s1, s2, p_of(p)),
        idx + 3 <= p.round_cst.len(),
    ensures
        state_wf(r.0, r.1, r.2, p_of(p)),
        (r.0@, r.1@, r.2@) == arc3_v(p, (s0@, s1@, s2@), idx as int),
{
    let r0 = fp_add(&s0, &p.round_cst[idx], &p.modulus);
    let r1 = fp_add(&s1, &p.round_cst[idx + 1], &p.modulus);
    let r2 = fp_add(&s2, &p.round_cst[idx + 2], &p.modulus);
    (r0, r1, r2)
}

/// The MDS mix of the state.
fn matrix_mix(p: &PoseidonParams, s0: Fp, s1: Fp, s2: Fp) -> (r: (Fp, Fp, Fp))
    requires
        params_wf(p),
        state_wf(s0, s1, s2, p_of(p)),
    ensures
        state_wf(r.0, r.1, r.2, p_of(p)),
        (r.0@, r.1@, r.2@) == mix_v(p, (s0@, s1@, s2@)),
{
    let m = &p.modulus;
    let e00 = fp_mul(&p.mds[0], &s0, m);
    let e01 = fp_mul(&p.mds[1], &s1, m);
    let e02 = fp_mul(&p.mds[2], &s2, m);
    let r0 = fp_add(&fp_add(&e00, &e01, m), &e02, m);
    let e10 = fp_mul(&p.mds[3], &s0, m);
    let e11 = fp_mul(&p.mds[4], &s1, m);
    let e12 = fp_mul(&p.mds[5], &s2, m);
    let r1 = fp_add(&fp_add(&e10, &e11, m), &e12, m);
    let e20 = fp_mul(&p.mds[6], &s0, m);
    let e21 = fp_mul(&p.mds[7], &s1, m);
    let e22 = fp_mul(&p.mds[8], &s2, m);
    let r2 = fp_add(&fp_add(&e20, &e21, m), &e22, m);
    (r0, r1, r2)
}

/// One full round at constant index `idx`.
fn full_round(p: &PoseidonParams, s0: Fp, s1: Fp, s2: Fp, idx: usize) -> (r: (Fp, Fp, Fp))
    requires
        params_wf(p),
        state_wf(s0, s1, s2, p_of(p)),
        idx + 3 <= p.round_cst.len(),
    ensures
        state_wf(r.0, r.1, r.2, p_of(p)),
        (r.0@, r.1@, r.2@) == full_round_v(p, (s0@, s1@, s2@), idx as int),
{
    let b0 = fp_sbox(&s0, &p.modulus);
    let b1 = fp_sbox(&s1, &p.modulus);
    let b2 = fp_sbox(&s2, &p.modulus);
    let (m0, m1, m2) = matrix_mix(p, b0, b1, b2);
    arc3(p, m0, m1, m2, idx)
}

/// One partial round at constant index `idx`.
fn partial_round(p: &PoseidonParams, s0: Fp, s1: Fp, s2: Fp, idx: usize) -> (r: (Fp, Fp, Fp))
    requires
        params_wf(p),
        state_wf(s0, s1, s2, p_of(p)),
        idx + 3 <= p.round_cst.len(),
    ensures
        state_wf(r.0, r.1, r.2, p_of(p)),
        (r.0@, r.1@, r.2@) == partial_round_v(p, (s0@, s1@, s2@), idx as int),
{
    let b0 = fp_sbox(&s0, &p.modulus);
    let (m0, m1, m2) = matrix_mix(p, b0, s1, s2);
    arc3(p, m0, m1, m2, idx)
}

/// The Poseidon permutation on a state triple.
#[verifier::rlimit(100)]
#[verifier::spinoff_prover]
pub fn poseidon_permutation(p: &PoseidonParams, s0: Fp, s1: Fp, s2: Fp) -> (r: (Fp, Fp, Fp))
    requires
        params_wf(p),
        state_wf(s0, s1, s2, p_of(p)),
    ensures
        state_wf(r.0, r.1, r.2, p_of(p)),
        (r.0@, r.1@, r.2@) == perm_v(p, (s0@, s1@, s2@)),
{
    proof {
        reveal(perm_v);
    }
    let ghost s_in = (s0@, s1@, s2@);
    // initial constant addition
    let (mut a0, mut a1, mut a2) = arc3(p, s0, s1, s2, 0);
    let ghost s_a = (a0@, a1@, a2@);
    let mut idx: usize = 3;
    // first block of full rounds
    let mut i: usize = 0;
    while i < p.rf
        invariant
            params_wf(p),
            state_wf(a0, a1, a2, p_of(p)),
            i <= p.rf,
            idx == 3 + 3 * i,
            full_rounds_v(p, (a0@, a1@, a2@), idx as int, (p.rf - i) as nat) == full_rounds_v(
                p,
                s_a,
                3,
                p.rf as nat,
            ),
        decreases p.rf - i,
    {
        let (b0, b1, b2) = full_round(p, a0, a1, a2, idx);
        a0 = b0;
        a1 = b1;
        a2 = b2;
        idx += 3;
        i += 1;
    }
    let ghost s_b = (a0@, a1@, a2@);
    proof {
        assert(s_b == full_rounds_v(p, s_a, 3, p.rf as nat));
    }
    // partial rounds
    let mut j: usize = 0;
    while j < p.rp
        invariant
            params_wf(p),
            state_wf(a0, a1, a2, p_of(p)),
            j <= p.rp,
            idx == 3 + 3 * p.rf + 3 * j,
            partial_rounds_v(p, (a0@, a1@, a2@), idx as int, (p.rp - j) as nat)
                == partial_rounds_v(p, s_b, 3 + 3 * p.rf, p.rp as nat),
        decreases p.rp - j,
    {
        let (b0, b1, b2) = partial_round(p, a0, a1, a2, idx);
        a0 = b0;
        a1 = b1;
        a2 = b2;
        idx += 3;
        j += 1;
    }
    let ghost s_c = (a0@, a1@, a2@);
    proof {
        assert(s_c == partial_rounds_v(p, s_b, 3 + 3 * p.rf, p.rp as nat));
    }
    // second block of full rounds, one fewer than the first
    let mut k: usize = 0;
    while k + 1 < p.rf
        invariant
            params_wf(p),
            state_wf(a0, a1, a2, p_of(p)),
            k <= p.rf - 1,
            idx == 3 + 3 * p.rf + 3 * p.rp + 3 * k,
            full_rounds_v(p, (a0@, a1@, a2@), idx as int, (p.rf - 1 - k) as nat) == full_rounds_v(
                p,
                s_c,
                3 + 3 * p.rf + 3 * p.rp,
                (p.rf - 1) as nat,
            ),
        decreases p.rf - k,
    {
        let (b0, b1, b2) = full_round(p, a0, a1, a2, idx);
        a0 = b0;
        a1 = b1;
        a2 = b2;
        idx += 3;
        k += 1;
    }
    proof {
        assert((a0@, a1@, a2@) == full_rounds_v(
            p,
            s_c,
            3 + 3 * p.rf + 3 * p.rp,
            (p.rf - 1) as nat,
        ));
    }
    // closing S-box row: no mix and no constants after it
    let r0 = fp_sbox(&a0, &p.modulus);
    let r1 = fp_sbox(&a1, &p.modulus);
    let r2 = fp_sbox(&a2, &p.modulus);
    (r0, r1, r2)
}

/// The sponge digest of a vector of field elements.
pub fn poseidon_hash_elements(p: &PoseidonParams, input: &Vec<Fp>) -> (r: Fp)
    requires
        params_wf(p),
        forall|i: int| 0 <= i < input.len() ==> fp_wf(#[trigger] input@[i], p_of(p)),
    ensures
        fp_wf(r, p_of(p)),
        r@ == hash_v(p, vals_of(input@)),
{
    let ghost all = vals_of(input@);
    let z0 = Fp::zero();
    let z1 = Fp::zero();
    let z2 = Fp::zero();
    proof {
        crate::bignum::lemma_modulus_bounds(p.modulus@);
        vstd::arithmetic::power2::lemma_pow2_pos(704);
    }
    let (mut s0, mut s1, mut s2) = poseidon_permutation(p, z0, z1, z2);
    let ghost init = (s0@, s1@, s2@);
    proof {
        assert(init == init_state_v(p));
        assert forall|t: int| 0 <= t < input.len() implies all[t] == input@[t]@ by {
            assert(all[t] == vals_of(input@)[t]);
        }
        assert(all.skip(0) =~= all);
    }
    let mut i: usize = 0;
    while input.len() - i >= 2
        invariant
            params_wf(p),
            state_wf(s0, s1, s2, p_of(p)),
            i <= input.len(),
            i % 2 == 0,
            all == vals_of(input@),
            all.len() == input.len(),
            forall|t: int| 0 <= t < input.len() ==> fp_wf(#[trigger] input@[t], p_of(p)),
            forall|t: int| 0 <= t < input.len() ==> all[t] == input@[t]@,
            absorb_v(p, (s0@, s1@, s2@), all.skip(i as int)) == absorb_v(p, init, all),
        decreases input.len() - i,
    {
        let ghost s_old = (s0@, s1@, s2@);
        let t0 = fp_add(&s0, &input[i], &p.modulus);
        let t1 = fp_add(&s1, &input[i + 1], &p.modulus);
        let t2 = fp_add(&s2, &p.c2, &p.modulus);
        let (n0, n1, n2) = poseidon_permutation(p, t0, t1, t2);
        s0 = n0;
        s1 = n1;
        s2 = n2;
        proof {
            let rest = all.skip(i as int);
            assert(rest.len() >= 2);
            assert(rest[0] == all[i as int] && rest[1] == all[i + 1]);
            assert(rest.skip(2) =~= all.skip(i + 2));
        }
        i += 2;
    }
    if i < input.len() {
        // one leftover element: absorb it alone with the capacity constant
        let ghost rest = all.skip(i as int);
        proof {
            assert(rest.len() == 1);
            assert(rest[0] == all[i as int]);
        }
        let t0 = fp_add(&s0, &input[i], &p.modulus);
        let t2 = fp_add(&s2, &p.c2, &p.modulus);
        let (n0, n1, n2) = poseidon_permutation(p, t0, s1, t2);
        proof {
            assert((n0@, n1@, n2@) == absorb_v(p, (s0@, s1@, s2@), rest));
        }
        n0
    } else {
        proof {
            assert(all.skip(i as int) =~= Seq::<nat>::empty());
        }
        s0
    }
}

/// The two-to-one Poseidon hash.
pub fn poseidon_hash_pair(p: &PoseidonParams, x: &Fp, y: &Fp) -> (r: Fp)
    requires
        params_wf(p),
        fp_wf(*x, p_of(p)),
        fp_wf(*y, p_of(p)),
    ensures
        fp_wf(r, p_of(p)),
        r@ == h2_v(p, x@, y@),
{
    let mut input: Vec<Fp> = Vec::new();
    input.push(x.dup());
    input.push(y.dup());
    let r = poseidon_hash_elements(p, &input);
    proof {
        assert(vals_of(input@) =~= seq![x@, y@]);
    }
    r
}

/// Splitting the absorbed input after an even-length prefix.
pub proof fn lemma_absorb_append(
    p: &PoseidonParams,
    s: (nat, nat, nat),
    a: Seq<nat>,
    b: Seq<nat>,
)
    requires
        a.len() % 2 == 0,
    ensures
        absorb_v(p, s, a + b) == absorb_v(p, absorb_v(p, s, a), b),
    decreases a.len(),
{
    if a.len() == 0 {
        assert(a + b =~= b);
    } else {
        let s2 = perm_v(
            p,
            (fadd(s.0, a[0], p_of(p)), fadd(s.1, a[1], p_of(p)), fadd(s.2, p.c2@, p_of(p))),
        );
        assert((a + b).len() >= 2);
        assert((a + b)[0] == a[0] && (a + b)[1] == a[1]);
        assert((a + b).skip(2) =~= a.skip(2) + b);
        lemma_absorb_append(p, s2, a.skip(2), b);
    }
}

/// A streaming form of the sponge: elements are absorbed one at a time and
/// the digest is taken once at the end.
pub struct UpdatablePoseidonHash {
    /// The parameter bundle.
    pub params: PoseidonParams,
    /// The running state.
    pub s0: Fp,
    /// The running state.
    pub s1: Fp,
    /// The running state.
    pub s2: Fp,
    /// An element waiting for its block partner.
    pub pending: Option<Fp>,
    /// The values absorbed so far.
    pub absorbed: Ghost<Seq<nat>>,
}

impl UpdatablePoseidonHash {
    /// The sequence of values absorbed so far.
    pub open spec fn absorbed_view(&self) -> Seq<nat> {
        self.absorbed@
    }

    /// Internal consistency of the sponge state.
    pub open spec fn wf(&self) -> bool {
        &&& params_wf(&self.params)
        &&& state_wf(self.s0, self.s1, self.s2, p_of(&self.params))
        &&& match self.pending {
            Option::None => {
                &&& self.absorbed@.len() % 2 == 0
                &&& (self.s0@, self.s1@, self.s2@) == absorb_v(
                    &self.params,
                    init_state_v(&self.params),
                    self.absorbed@,
                )
            },
            Option::Some(f) => {
                &&& fp_wf(f, p_of(&self.params))
                &&& self.absorbed@.len() % 2 == 1
                &&& f@ == self.absorbed@.last()
                &&& (self.s0@, self.s1@, self.s2@) == absorb_v(
                    &self.params,
                    init_state_v(&self.params),
                    self.absorbed@.take(self.absorbed@.len() - 1),
                )
            },
        }
    }

    /// Opens a fresh sponge. The load hint names how many permutations a
    /// worker would be handed at a time; this sequential form keeps it only
    /// for interface parity.
    pub fn new(params: PoseidonParams, cpu_load: Option<usize>) -> (r: UpdatablePoseidonHash)
        requires
            params_wf(&params),
        ensures
            r.wf(),
            r.absorbed_view() == Seq::<nat>::empty(),
            r.params == params,
    {
        let _ = cpu_load;
        proof {
            crate::bignum::lemma_modulus_bounds(params.modulus@);
            vstd::arithmetic::power2::lemma_pow2_pos(704);
        }
        let (s0, s1, s2) = poseidon_permutation(&params, Fp::zero(), Fp::zero(), Fp::zero());
        let r = UpdatablePoseidonHash {
            params,
            s0,
            s1,
            s2,
            pending: Option::None,
            absorbed: Ghost(Seq::<nat>::empty()),
        };
        proof {
            assert(absorb_v(&r.params, init_state_v(&r.params), Seq::<nat>::empty())
                == init_state_v(&r.params));
        }
        r
    }

    /// Absorbs one element.
    #[verifier::rlimit(100)]
    pub fn update(&mut self, f: Fp)
        requires
            old(self).wf(),
            fp_wf(f, p_of(&old(self).params)),
        ensures
            final(self).wf(),
            final(self).params == old(self).params,
            final(self).absorbed_view() == old(self).absorbed_view().push(f@),
    {
        let ghost seen = self.absorbed@;
        proof {
            self.absorbed@ = seen.push(f@);
        }
        let taken = self.pending.take();
        match taken {
            Option::None => {
                self.pending = Option::Some(f);
                proof {
                    assert(seen.push(f@).take(seen.push(f@).len() - 1) =~= seen);
                }
            },
            Option::Some(g) => {
                let t0 = fp_add(&self.s0, &g, &self.params.modulus);
                let t1 = fp_add(&self.s1, &f, &self.params.modulus);
                let t2 = fp_add(&self.s2, &self.params.c2, &self.params.modulus);
                let (n0, n1, n2) = poseidon_permutation(&self.params, t0, t1, t2);
                self.s0 = n0;
                self.s1 = n1;
                self.s2 = n2;
                proof {
                    let p = &self.params;
                    let even = seen.take(seen.len() - 1);
                    let blk = seq![g@, f@];
                    assert(seen.push(f@) =~= even + blk);
                    lemma_absorb_append(p, init_state_v(p), even, blk);
                    let st = absorb_v(p, init_state_v(p), even);
                    assert(blk.skip(2) =~= Seq::<nat>::empty());
                    assert(absorb_v(p, st, blk) == absorb_v(
                        p,
                        perm_v(
                            p,
                            (
                                fadd(st.0, g@, p_of(p)),
                                fadd(st.1, f@, p_of(p)),
                                fadd(st.2, p.c2@, p_of(p)),
                            ),
                        ),
                        blk.skip(2),
                    ));
                }
            },
        }
    }

    /// Closes the sponge and returns the digest; the instance is consumed.
    pub fn finalize(self) -> (r: Fp)
        requires
            self.wf(),
        ensures
            fp_wf(r, p_of(&self.params)),
            r@ == hash_v(&self.params, self.absorbed_view()),
    {
        let UpdatablePoseidonHash { params, s0, s1, s2, pending, absorbed } = self;
        match pending {
            Option::None => {
                proof {
                    assert(absorbed@.skip(absorbed@.len() as int) =~= Seq::<nat>::empty());
                    lemma_absorb_append(
                        &params,
                        init_state_v(&params),
                        absorbed@,
                        Seq::<nat>::empty(),
                    );
                    assert(absorbed@ + Seq::<nat>::empty() =~= absorbed@);
                }
                s0
            },
            Option::Some(g) => {
                let t0 = fp_add(&s0, &g, &params.modulus);
                let t2 = fp_add(&s2, &params.c2, &params.modulus);
                let (n0, n1, n2) = poseidon_permutation(&params, t0, s1, t2);
                proof {
                    let p = &params;
                    let even = absorbed@.take(absorbed@.len() - 1);
                    let one = seq![g@];
                    assert(absorbed@ =~= even + one);
                    lemma_absorb_append(p, init_state_v(p), even, one);
                }
                n0
            },
        }
    }
}

/// A batch of independent sponge evaluations, kept in submission order.
pub struct UpdatableBatchPoseidonHash {
    /// The parameter bundle.
    pub params: PoseidonParams,
    /// The queued inputs, one vector per hash.
    pub jobs: Vec<Vec<Fp>>,
}

impl UpdatableBatchPoseidonHash {
    /// The inputs queued so far, in order.
    pub open spec fn jobs_view(&self) -> Seq<Seq<nat>> {
        self.jobs@.map_values(|j: Vec<Fp>| vals_of(j@))
    }

    /// Internal consistency.
    pub open spec fn wf(&self) -> bool {
        &&& params_wf(&self.params)
        &&& forall|i: int, t: int|
            0 <= i < self.jobs.len() && 0 <= t < self.jobs@[i].len() ==> fp_wf(
                #[trigger] self.jobs@[i]@[t],
                p_of(&self.params),
            )
    }

    /// Opens an empty batch. The load hint names how many hashes a worker
    /// would be handed at a time; this sequential form keeps it only for
    /// interface parity.
    pub fn new(params: PoseidonParams, cpu_load: Option<usize>) -> (r: UpdatableBatchPoseidonHash)
        requires
            params_wf(&params),
        ensures
            r.wf(),
            r.jobs_view() == Seq::<Seq<nat>>::empty(),
            r.params == params,
    {
        let _ = cpu_load;
        let r = UpdatableBatchPoseidonHash { params, jobs: Vec::new() };
        proof {
            assert(r.jobs_view() =~= Seq::<Seq<nat>>::empty());
        }
        r
    }

    /// Queues the input of one hash.
    pub fn update(&mut self, input: Vec<Fp>)
        requires
            old(self).wf(),
            forall|t: int| 0 <= t < input.len() ==> fp_wf(#[trigger] input@[t], p_of(&old(self).params)),
        ensures
            final(self).wf(),
            final(self).params == old(self).params,
            final(self).jobs_view() == old(self).jobs_view().push(vals_of(input@)),
    {
        self.jobs.push(input);
        proof {
            assert(final(self).jobs_view() =~= old(self).jobs_view().push(vals_of(input@)));
        }
    }

    /// Evaluates every queued hash; the digests come back in submission order.
    pub fn finalize(self) -> (r: Vec<Fp>)
        requires
            self.wf(),
        ensures
            r.len() == self.jobs_view().len(),
            forall|i: int|
                0 <= i < r.len() ==> fp_wf(#[trigger] r@[i], p_of(&self.params)) && r@[i]@
                    == hash_v(&self.params, self.jobs_view()[i]),
    {
        let UpdatableBatchPoseidonHash { params, jobs } = self;
        let mut out: Vec<Fp> = Vec::new();
        let mut i: usize = 0;
        while i < jobs.len()
            invariant
                i <= jobs.len(),
                params_wf(&params),
                forall|a: int, t: int|
                    0 <= a < jobs.len() && 0 <= t < jobs@[a].len() ==> fp_wf(
                        #[trigger] jobs@[a]@[t],
                        p_of(&params),
                    ),
                out.len() == i,
                forall|a: int|
                    0 <= a < i ==> fp_wf(#[trigger] out@[a], p_of(&params)) && out@[a]@ == hash_v(
                        &params,
                        vals_of(jobs@[a]@),
                    ),
            decreases jobs.len() - i,
        {
            let d = poseidon_hash_elements(&params, &jobs[i]);
            out.push(d);
            i += 1;
        }
        out
    }
}

/// Type-level tag for the constraint-system form of the hash.
///
/// A circuit builder allocates one witness per S-box inversion and per mix
/// row and constrains them to the very arithmetic the functions above
/// compute; this library verifies that arithmetic, and the tag names the
/// gadget shape built over it. The builder itself works through an outside
/// constraint-system crate and stays outside the verified library.
pub struct PoseidonHashGadget {
    /// The parameter bundle the gadget is built over.
    pub params: PoseidonParams,
}

impl PoseidonHashGadget {
    /// The digest value the gadget's constraints fix for an input: exactly
    /// the sponge digest of this library.
    pub fn evaluate(&self, input: &Vec<Fp>) -> (r: Fp)
        requires
            params_wf(&self.params),
            forall|i: int| 0 <= i < input.len() ==> fp_wf(#[trigger] input@[i], p_of(&self.params)),
        ensures
            fp_wf(r, p_of(&self.params)),
            r@ == hash_v(&self.params, vals_of(input@)),
    {
        poseidon_hash_elements(&self.params, input)
    }
}

} // verus!
