//! Field elements of a 753-bit prime scalar field.
//!
//! An element is a canonical residue held in twelve 64-bit limbs; its
//! mathematical value is `limbs_val` of the limb sequence. The modulus travels
//! alongside as plain limbs (see `bignum::modulus_wf`), so the same code
//! serves both scalar fields of the curve cycle.
use vstd::prelude::*;
use crate::bignum::{
    NLIMBS, limbs_val, modulus_wf, zero_limbs, one_limbs, pad_to, lemma_val_high_zeros,
    add_mod_limbs, mul_mod_limbs, inv_mod_limbs, inv_step, lemma_inv_of, mod_limbs,
    lemma_modulus_bounds,
};

verus! {

/// A field element: twelve little-endian limbs holding a canonical residue.
#[derive(Debug)]
pub struct Fp {
    pub limbs: Vec<u64>,
}

impl View for Fp {
    type V = nat;

    open spec fn view(&self) -> nat {
        limbs_val(self.limbs@)
    }
}

/// Well-formedness of a field element against the modulus value `m`.
pub open spec fn fp_wf(x: Fp, m: nat) -> bool {
    &&& x.limbs.len() == NLIMBS
    &&& x@ < m
}

impl Fp {
    /// The zero element.
    pub fn zero() -> (r: Fp)
        ensures
            r.limbs.len() == NLIMBS,
            r@ == 0,
    {
        Fp { limbs: zero_limbs() }
    }

    /// The element one.
    pub fn one() -> (r: Fp)
        ensures
            r.limbs.len() == NLIMBS,
            r@ == 1,
    {
        Fp { limbs: one_limbs() }
    }

    /// Embeds a machine word.
    pub fn from_u64(v: u64) -> (r: Fp)
        ensures
            r.limbs.len() == NLIMBS,
            r@ == v,
    {
        let mut l: Vec<u64> = Vec::new();
        l.push(v);
        pad_to(&mut l, NLIMBS);
        proof {
            lemma_val_high_zeros(l@, 1);
            let one = l@.take(1);
            assert(one.len() == 1 && one[0] == v);
            assert(one.skip(1) =~= Seq::<u64>::empty());
            assert(limbs_val(one) == (one[0] + vstd::arithmetic::power2::pow2(64) * limbs_val(
                one.skip(1),
            )) as nat);
            assert(vstd::arithmetic::power2::pow2(64) * 0 == 0) by (nonlinear_arith);
        }
        Fp { limbs: l }
    }

    /// An identical copy.
    pub fn dup(&self) -> (r: Fp)
        ensures
            r.limbs@ == self.limbs@,
            r@ == self@,
    {
        let l = self.limbs.clone();
        proof {
            assert(l@ =~= self.limbs@);
        }
        Fp { limbs: l }
    }

    /// Limb-wise equality; on canonical residues this is value equality.
    pub fn equals(&self, other: &Fp) -> (r: bool)
        ensures
            r <==> self.limbs@ == other.limbs@,
    {
        if self.limbs.len() != other.limbs.len() {
            return false;
        }
        let mut i: usize = 0;
        while i < self.limbs.len()
            invariant
                i <= self.limbs.len(),
                self.limbs.len() == other.limbs.len(),
                forall|j: int| 0 <= j < i ==> self.limbs@[j] == other.limbs@[j],
            decreases self.limbs.len() - i,
        {
            if self.limbs[i] != other.limbs[i] {
                return false;
            }
            i += 1;
        }
        proof {
            assert(self.limbs@ =~= other.limbs@);
        }
        true
    }
}

/// Equal canonical residues have equal limbs.
pub proof fn lemma_fp_canonical(a: Fp, b: Fp)
    requires
        a.limbs.len() == NLIMBS,
        b.limbs.len() == NLIMBS,
        a@ == b@,
    ensures
        a.limbs@ == b.limbs@,
    decreases NLIMBS,
{
    lemma_val_inj(a.limbs@, b.limbs@);
}

/// Limb sequences of one length with one value are equal.
pub proof fn lemma_val_inj(a: Seq<u64>, b: Seq<u64>)
    requires
        a.len() == b.len(),
        limbs_val(a) == limbs_val(b),
    ensures
        a == b,
    decreases a.len(),
{
    if a.len() > 0 {
        let pb = vstd::arithmetic::power2::pow2(64) as int;
        assert(pb == 0x1_0000_0000_0000_0000) by {
            vstd::arithmetic::power2::lemma2_to64_rest();
        }
        let ra = limbs_val(a.skip(1)) as int;
        let rb = limbs_val(b.skip(1)) as int;
        assert(a[0] + pb * ra == b[0] + pb * rb);
        // both head limbs are the value modulo 2^64, so they agree
        assert(a[0] == b[0] && ra == rb) by (nonlinear_arith)
            requires
                a[0] + pb * ra == b[0] + pb * rb,
                0 <= a[0] < pb,
                0 <= b[0] < pb,
                ra >= 0,
                rb >= 0,
                pb == 0x1_0000_0000_0000_0000,
        ;
        lemma_val_inj(a.skip(1), b.skip(1));
        assert(a =~= b) by {
            assert(forall|i: int| 1 <= i < a.len() ==> a[i] == a.skip(1)[i - 1] && b[i] == b.skip(
                1,
            )[i - 1]);
        }
    } else {
        assert(a =~= b);
    }
}

/// Sum of residues: `(a + b) mod m`.
pub fn fp_add(a: &Fp, b: &Fp, m: &Vec<u64>) -> (r: Fp)
    requires
        modulus_wf(m@),
        fp_wf(*a, limbs_val(m@)),
        fp_wf(*b, limbs_val(m@)),
    ensures
        fp_wf(r, limbs_val(m@)),
        r@ == (a@ + b@) % limbs_val(m@),
{
    Fp { limbs: add_mod_limbs(&a.limbs, &b.limbs, m) }
}

/// Product of residues: `(a * b) mod m`.
pub fn fp_mul(a: &Fp, b: &Fp, m: &Vec<u64>) -> (r: Fp)
    requires
        modulus_wf(m@),
        fp_wf(*a, limbs_val(m@)),
        fp_wf(*b, limbs_val(m@)),
    ensures
        fp_wf(r, limbs_val(m@)),
        r@ == (a@ * b@) % limbs_val(m@),
{
    Fp { limbs: mul_mod_limbs(&a.limbs, &b.limbs, m) }
}

/// The value of the inversion S-box on `x`: the modular inverse computed by
/// the binary extended gcd, with zero mapped to zero.
pub open spec fn sbox_v(x: nat, m: nat) -> nat {
    inv_step(x, m, 1, 0, m)
}

/// A non-zero S-box output is the unique multiplicative inverse.
pub proof fn lemma_sbox_inverse(x: nat, m: nat)
    requires
        m % 2 == 1,
        m >= 3,
    ensures
        sbox_v(x, m) == 0 || (sbox_v(x, m) * x) % m == 1,
{
    lemma_inv_of(x, m);
}

/// The inversion S-box: `x` to `x^{-1}` with `0` to `0`.
pub fn fp_sbox(a: &Fp, m: &Vec<u64>) -> (r: Fp)
    requires
        modulus_wf(m@),
        fp_wf(*a, limbs_val(m@)),
    ensures
        fp_wf(r, limbs_val(m@)),
        r@ == sbox_v(a@, limbs_val(m@)),
{
    Fp { limbs: inv_mod_limbs(&a.limbs, m) }
}

/// Takes arbitrary limbs into the field by reduction.
pub fn fp_from_limbs_reduced(l: Vec<u64>, m: &Vec<u64>) -> (r: Fp)
    requires
        modulus_wf(m@),
        l.len() <= 64,
    ensures
        fp_wf(r, limbs_val(m@)),
        r@ == limbs_val(l@) % limbs_val(m@),
{
    proof {
        vstd::arithmetic::div_mod::lemma_mod_bound(
            limbs_val(l@) as int,
            limbs_val(m@) as int,
        );
        lemma_modulus_bounds(m@);
        vstd::arithmetic::power2::lemma_pow2_pos(704);
    }
    Fp { limbs: mod_limbs(l, m) }
}

} // verus!
