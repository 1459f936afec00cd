//! Little-endian multi-limb natural numbers on `u64` limbs.
//!
//! Field elements of the 753-bit scalar fields are held as 12 limbs; wide
//! intermediate products use longer limb vectors. Every operation carries a
//! contract over `limbs_val`, the mathematical value of a limb sequence.
use vstd::prelude::*;
use vstd::arithmetic::power2::*;
use vstd::arithmetic::mul::*;
use vstd::arithmetic::div_mod::*;
use vstd::seq_lib::*;

verus! {

/// Limbs of a field element.
pub const NLIMBS: usize = 12;

/// Value of a little-endian sequence of 64-bit limbs.
pub open spec fn limbs_val(s: Seq<u64>) -> nat
    decreases s.len(),
{
    if s.len() == 0 {
        0
    } else {
        (s[0] + pow2(64) * limbs_val(s.skip(1))) as nat
    }
}

/// `limbs_val` splits at any position `i`.
pub proof fn lemma_val_split(s: Seq<u64>, i: int)
    requires
        0 <= i <= s.len(),
    ensures
        limbs_val(s) == limbs_val(s.take(i)) + pow2((64 * i) as nat) * limbs_val(s.skip(i)),
    decreases i,
{
    if i == 0 {
        assert(s.take(0) =~= Seq::<u64>::empty());
        assert(s.skip(0) =~= s);
        lemma_pow2_pos(0);
        assert(pow2(0) == 1) by {
            lemma2_to64();
        }
        assert(pow2(0) * limbs_val(s) == limbs_val(s)) by (nonlinear_arith)
            requires
                pow2(0) == 1,
        ;
    } else {
        let t = s.skip(1);
        lemma_val_split(t, i - 1);
        assert(t.take(i - 1) =~= s.take(i).skip(1));
        assert(t.skip(i - 1) =~= s.skip(i));
        assert(s.take(i).len() == i);
        assert(s.take(i)[0] == s[0]);
        assert(limbs_val(s.take(i)) == s[0] + pow2(64) * limbs_val(s.take(i).skip(1)));
        lemma_pow2_adds(64, (64 * (i - 1)) as nat);
        assert(64 + 64 * (i - 1) == 64 * i);
        let p1 = pow2((64 * (i - 1)) as nat) as int;
        let pi = pow2((64 * i) as nat) as int;
        let b = pow2(64) as int;
        assert(pi == b * p1);
        let lo = limbs_val(t.take(i - 1)) as int;
        let hi = limbs_val(s.skip(i)) as int;
        assert(limbs_val(t) == lo + p1 * hi);
        assert(limbs_val(s) == s[0] + b * (lo + p1 * hi));
        assert(b * (lo + p1 * hi) == b * lo + b * (p1 * hi)) by (nonlinear_arith);
        assert(b * (p1 * hi) == (b * p1) * hi) by (nonlinear_arith);
        assert(limbs_val(s) == s[0] + b * lo + pi * hi);
        assert(limbs_val(s.take(i).skip(1)) == lo);
        assert(limbs_val(s.take(i)) == s[0] + b * lo);
        assert(limbs_val(s) == limbs_val(s.take(i)) + pi * hi);
        assert(pi * hi >= 0) by (nonlinear_arith)
            requires
                pi >= 0 && hi >= 0,
        ;
        assert(pi * hi == pow2((64 * i) as nat) * limbs_val(s.skip(i)));
    }
}

/// The value of `n` limbs is below `pow2(64 n)`.
pub proof fn lemma_val_bound(s: Seq<u64>)
    ensures
        limbs_val(s) < pow2((64 * s.len()) as nat),
    decreases s.len(),
{
    if s.len() == 0 {
        lemma_pow2_pos(0);
        assert(pow2(0) == 1) by {
            lemma2_to64();
        }
    } else {
        let t = s.skip(1);
        lemma_val_bound(t);
        lemma_pow2_adds(64, (64 * (s.len() - 1)) as nat);
        assert(64 + 64 * (s.len() - 1) == 64 * s.len());
        let b = pow2(64) as int;
        let pr = pow2((64 * (s.len() - 1)) as nat) as int;
        assert(pow2(64) == 0x1_0000_0000_0000_0000) by {
            lemma2_to64_rest();
        }
        let r = limbs_val(t) as int;
        assert(r <= pr - 1);
        assert(b * r <= b * (pr - 1)) by (nonlinear_arith)
            requires r <= pr - 1 && b > 0;
        assert(b * (pr - 1) == b * pr - b) by (nonlinear_arith);
        assert(limbs_val(s) == s[0] + b * r);
        assert(s[0] < b);
    }
}

/// A limb sequence has value zero exactly when every limb is zero.
pub proof fn lemma_val_zero(s: Seq<u64>)
    ensures
        (limbs_val(s) == 0) <==> (forall|i: int| 0 <= i < s.len() ==> s[i] == 0),
    decreases s.len(),
{
    if s.len() > 0 {
        let t = s.skip(1);
        lemma_val_zero(t);
        lemma_pow2_pos(64);
        let b = pow2(64) as int;
        let r = limbs_val(t) as int;
        assert(b * r >= 0) by (nonlinear_arith)
            requires b > 0 && r >= 0;
        if limbs_val(s) == 0 {
            assert(s[0] == 0);
            assert(b * r == 0);
            assert(r == 0) by (nonlinear_arith)
                requires b * r == 0 && b > 0 && r >= 0;
            assert(forall|i: int| 0 <= i < t.len() ==> t[i] == 0);
            assert(forall|i: int| 1 <= i < s.len() ==> s[i] == t[i - 1]);
        } else {
            if forall|i: int| 0 <= i < s.len() ==> s[i] == 0 {
                assert(forall|i: int| 0 <= i < t.len() ==> t[i] == s[i + 1]);
                assert(limbs_val(t) == 0);
                assert(limbs_val(s) == s[0] + b * 0);
                assert(false);
            }
        }
    }
}

/// Appending the limb at `i` to the prefix of length `i`.
pub proof fn lemma_val_take_succ(s: Seq<u64>, i: int)
    requires
        0 <= i < s.len(),
    ensures
        limbs_val(s.take(i + 1)) == limbs_val(s.take(i)) + s[i] * pow2((64 * i) as nat),
{
    lemma_val_split(s.take(i + 1), i);
    assert(s.take(i + 1).take(i) =~= s.take(i));
    let one = s.take(i + 1).skip(i);
    assert(one.len() == 1 && one[0] == s[i]);
    assert(one.skip(1) =~= Seq::<u64>::empty());
    lemma_pow2_pos(64);
    assert(limbs_val(one.skip(1)) == 0);
    assert(limbs_val(one) == (one[0] + pow2(64) * limbs_val(one.skip(1))) as nat);
    assert(pow2(64) * 0 == 0) by (nonlinear_arith);
    assert(limbs_val(one) == s[i]);
    let p = pow2((64 * i) as nat) as int;
    assert(p * (s[i] as int) == (s[i] as int) * p) by (nonlinear_arith);
}

/// The parity of the value is the parity of the lowest limb.
pub proof fn lemma_val_parity(s: Seq<u64>)
    requires
        s.len() >= 1,
    ensures
        limbs_val(s) % 2 == s[0] % 2,
{
    lemma_pow2_adds(1, 63);
    assert(pow2(1) == 2) by {
        lemma2_to64();
    }
    let r = limbs_val(s.skip(1)) as int;
    let h = pow2(63) as int;
    assert(pow2(64) * r == 2 * (h * r)) by (nonlinear_arith)
        requires pow2(64) == 2 * h;
    lemma_mod_multiples_vanish(h * r, s[0] as int, 2);
}

/// Comparing two equal-length sequences at the highest differing limb.
pub proof fn lemma_val_cmp_at(a: Seq<u64>, b: Seq<u64>, i: int)
    requires
        a.len() == b.len(),
        0 <= i < a.len(),
        a.skip(i + 1) =~= b.skip(i + 1),
        a[i] > b[i],
    ensures
        limbs_val(a) > limbs_val(b),
{
    lemma_val_split(a, i);
    lemma_val_split(b, i);
    let p = pow2((64 * i) as nat) as int;
    lemma_pow2_pos((64 * i) as nat);
    let ha = limbs_val(a.skip(i)) as int;
    let hb = limbs_val(b.skip(i)) as int;
    assert(limbs_val(a.skip(i)) == a[i] + pow2(64) * limbs_val(a.skip(i).skip(1)));
    assert(limbs_val(b.skip(i)) == b[i] + pow2(64) * limbs_val(b.skip(i).skip(1)));
    assert(a.skip(i).skip(1) =~= a.skip(i + 1));
    assert(b.skip(i).skip(1) =~= b.skip(i + 1));
    assert(ha >= hb + 1);
    lemma_val_bound(a.take(i));
    lemma_val_bound(b.take(i));
    assert(a.take(i).len() == i);
    assert(b.take(i).len() == i);
    let la = limbs_val(a.take(i)) as int;
    let lb = limbs_val(b.take(i)) as int;
    assert(p * ha >= p * (hb + 1)) by (nonlinear_arith)
        requires ha >= hb + 1 && p > 0;
    assert(p * (hb + 1) == p * hb + p) by (nonlinear_arith);
    assert(la >= 0 && lb < p);
}

/// Subtracts `b` from `a` in place, returning the final borrow.
pub fn sub_limbs_in_place(a: &mut Vec<u64>, b: &Vec<u64>) -> (borrow: bool)
    requires
        old(a).len() == b.len(),
    ensures
        final(a).len() == b.len(),
        limbs_val(final(a)@) == limbs_val(old(a)@) - limbs_val(b@) + if borrow {
            pow2((64 * b.len()) as nat) as int
        } else {
            0
        },
        borrow <==> limbs_val(old(a)@) < limbs_val(b@),
{
    let ghost a0 = a@;
    let n = b.len();
    let mut i: usize = 0;
    let mut borrow: u64 = 0;
    proof {
        assert(a@.take(0) =~= Seq::<u64>::empty());
        assert(b@.take(0) =~= Seq::<u64>::empty());
        assert(a0.take(0) =~= Seq::<u64>::empty());
        assert(pow2(0) == 1) by {
            lemma2_to64();
        }
    }
    while i < n
        invariant
            i <= n,
            n == b.len() == a.len() == a0.len(),
            borrow <= 1,
            forall|j: int| i <= j < n ==> a@[j] == a0[j],
            limbs_val(a@.take(i as int)) == limbs_val(a0.take(i as int)) - limbs_val(
                b@.take(i as int),
            ) + (borrow as int) * pow2((64 * i) as nat),
        decreases n - i,
    {
        let ghost prev = a@;
        let ghost borrow_in = borrow as int;
        let t: u128 = 0x1_0000_0000_0000_0000u128 + (a[i] as u128) - (b[i] as u128) - (borrow
            as u128);
        let limb: u64 = (t % 0x1_0000_0000_0000_0000u128) as u64;
        let new_borrow: u64 = if t < 0x1_0000_0000_0000_0000u128 {
            1
        } else {
            0
        };
        a[i] = limb;
        borrow = new_borrow;
        proof {
            let bb = 0x1_0000_0000_0000_0000 as int;
            assert(limb == a0[i as int] - b@[i as int] - borrow_in + bb * (new_borrow as int));
            assert(a@ =~= prev.update(i as int, limb));
            assert(a@.take(i as int) =~= prev.take(i as int));
            lemma_val_take_succ(a@, i as int);
            lemma_val_take_succ(a0, i as int);
            lemma_val_take_succ(b@, i as int);
            lemma_pow2_adds((64 * i) as nat, 64);
            assert(64 * (i + 1) == 64 * i + 64);
            let p = pow2((64 * i) as nat) as int;
            assert(pow2(64) == 0x1_0000_0000_0000_0000) by {
                lemma2_to64_rest();
            }
            assert(pow2((64 * (i + 1)) as nat) == p * bb);
            assert((limb as int) * p == (a0[i as int] - b@[i as int] - borrow_in + bb * (new_borrow
                as int)) * p) by (nonlinear_arith)
                requires
                    limb == a0[i as int] - b@[i as int] - borrow_in + bb * (new_borrow as int),
            ;
            assert((a0[i as int] - b@[i as int] - borrow_in + bb * (new_borrow as int)) * p == (
            a0[i as int] as int) * p - (b@[i as int] as int) * p - borrow_in * p + (new_borrow
                as int) * (p * bb)) by (nonlinear_arith);
        }
        i += 1;
    }
    proof {
        assert(a@.take(n as int) =~= a@);
        assert(a0.take(n as int) =~= a0);
        assert(b@.take(n as int) =~= b@);
        lemma_val_bound(a@);
        lemma_val_bound(b@);
        if borrow == 1 {
            assert(limbs_val(a0) < limbs_val(b@));
        }
    }
    borrow == 1
}

/// Adds `b` to `a` in place, returning the final carry.
pub fn add_limbs_in_place(a: &mut Vec<u64>, b: &Vec<u64>) -> (carry: bool)
    requires
        old(a).len() == b.len(),
    ensures
        final(a).len() == b.len(),
        limbs_val(final(a)@) == limbs_val(old(a)@) + limbs_val(b@) - if carry {
            pow2((64 * b.len()) as nat) as int
        } else {
            0
        },
{
    let ghost a0 = a@;
    let n = b.len();
    let mut i: usize = 0;
    let mut carry: u64 = 0;
    proof {
        assert(a@.take(0) =~= Seq::<u64>::empty());
        assert(b@.take(0) =~= Seq::<u64>::empty());
        assert(a0.take(0) =~= Seq::<u64>::empty());
        assert(pow2(0) == 1) by {
            lemma2_to64();
        }
    }
    while i < n
        invariant
            i <= n,
            n == b.len() == a.len() == a0.len(),
            carry <= 1,
            forall|j: int| i <= j < n ==> a@[j] == a0[j],
            limbs_val(a@.take(i as int)) == limbs_val(a0.take(i as int)) + limbs_val(
                b@.take(i as int),
            ) - (carry as int) * pow2((64 * i) as nat),
        decreases n - i,
    {
        let ghost prev = a@;
        let ghost carry_in = carry as int;
        let t: u128 = (a[i] as u128) + (b[i] as u128) + (carry as u128);
        let limb: u64 = (t % 0x1_0000_0000_0000_0000u128) as u64;
        let new_carry: u64 = if t >= 0x1_0000_0000_0000_0000u128 {
            1
        } else {
            0
        };
        a[i] = limb;
        carry = new_carry;
        proof {
            let bb = 0x1_0000_0000_0000_0000 as int;
            assert(limb == a0[i as int] + b@[i as int] + carry_in - bb * (new_carry as int));
            assert(a@ =~= prev.update(i as int, limb));
            assert(a@.take(i as int) =~= prev.take(i as int));
            lemma_val_take_succ(a@, i as int);
            lemma_val_take_succ(a0, i as int);
            lemma_val_take_succ(b@, i as int);
            lemma_pow2_adds((64 * i) as nat, 64);
            assert(64 * (i + 1) == 64 * i + 64);
            let p = pow2((64 * i) as nat) as int;
            assert(pow2(64) == 0x1_0000_0000_0000_0000) by {
                lemma2_to64_rest();
            }
            assert(pow2((64 * (i + 1)) as nat) == p * bb);
            assert((limb as int) * p == (a0[i as int] + b@[i as int] + carry_in - bb * (new_carry
                as int)) * p) by (nonlinear_arith)
                requires
                    limb == a0[i as int] + b@[i as int] + carry_in - bb * (new_carry as int),
            ;
            assert((a0[i as int] + b@[i as int] + carry_in - bb * (new_carry as int)) * p == (
            a0[i as int] as int) * p + (b@[i as int] as int) * p + carry_in * p - (new_carry
                as int) * (p * bb)) by (nonlinear_arith);
        }
        i += 1;
    }
    proof {
        assert(a@.take(n as int) =~= a@);
        assert(a0.take(n as int) =~= a0);
        assert(b@.take(n as int) =~= b@);
    }
    carry == 1
}

/// Compares the values of two equal-length limb vectors.
pub fn ge_limbs(a: &Vec<u64>, b: &Vec<u64>) -> (r: bool)
    requires
        a.len() == b.len(),
    ensures
        r <==> limbs_val(a@) >= limbs_val(b@),
{
    let mut i: usize = a.len();
    while i > 0
        invariant
            i <= a.len(),
            a.len() == b.len(),
            forall|j: int| i <= j < a.len() ==> a@[j] == b@[j],
        decreases i,
    {
        i -= 1;
        proof {
            assert(a@.skip(i + 1) =~= b@.skip(i + 1));
        }
        if a[i] > b[i] {
            proof {
                lemma_val_cmp_at(a@, b@, i as int);
            }
            return true;
        }
        if a[i] < b[i] {
            proof {
                lemma_val_cmp_at(b@, a@, i as int);
            }
            return false;
        }
    }
    proof {
        assert(a@ =~= b@);
    }
    true
}

/// True when the value is zero.
pub fn is_zero_limbs(a: &Vec<u64>) -> (r: bool)
    ensures
        r <==> limbs_val(a@) == 0,
{
    let mut i: usize = 0;
    while i < a.len()
        invariant
            i <= a.len(),
            forall|j: int| 0 <= j < i ==> a@[j] == 0,
        decreases a.len() - i,
    {
        if a[i] != 0 {
            proof {
                lemma_val_zero(a@);
            }
            return false;
        }
        i += 1;
    }
    proof {
        lemma_val_zero(a@);
    }
    true
}

/// True when the value is even.
pub fn is_even_limbs(a: &Vec<u64>) -> (r: bool)
    requires
        a.len() >= 1,
    ensures
        r <==> limbs_val(a@) % 2 == 0,
{
    proof {
        lemma_val_parity(a@);
    }
    a[0] % 2 == 0
}

/// Halves the value in place; returns the bit shifted out.
pub fn shr1_in_place(a: &mut Vec<u64>) -> (lost: bool)
    ensures
        final(a).len() == old(a).len(),
        2 * limbs_val(final(a)@) + if lost {
            1int
        } else {
            0int
        } == limbs_val(old(a)@),
{
    let ghost a0 = a@;
    let n = a.len();
    let mut i: usize = n;
    let mut carry: u64 = 0;
    proof {
        assert(a@.skip(n as int) =~= Seq::<u64>::empty());
        assert(a0.skip(n as int) =~= Seq::<u64>::empty());
    }
    while i > 0
        invariant
            i <= n,
            n == a.len() == a0.len(),
            carry <= 1,
            forall|j: int| 0 <= j < i ==> a@[j] == a0[j],
            limbs_val(a0.skip(i as int)) == 2 * limbs_val(a@.skip(i as int)) + carry,
        decreases i,
    {
        i -= 1;
        let ghost prev = a@;
        let ghost carry_in = carry;
        let x = a[i];
        let limb: u64 = (carry << 63u64) | (x >> 1u64);
        carry = x & 1;
        a[i] = limb;
        proof {
            assert(a@ =~= prev.update(i as int, limb));
            assert(limb == (carry_in as int) * 0x8000_0000_0000_0000 + (x as int) / 2 && carry
                == (x as int) % 2) by (bit_vector)
                requires
                    limb == (carry_in << 63u64) | (x >> 1u64) && carry == x & 1 && carry_in <= 1,
            ;
            let lo = a@.skip(i as int);
            let hi = a@.skip(i + 1);
            assert(hi =~= prev.skip(i + 1));
            assert(lo[0] == limb);
            assert(lo.skip(1) =~= hi);
            let lo0 = a0.skip(i as int);
            assert(lo0[0] == a0[i as int] && a0[i as int] == x);
            assert(lo0.skip(1) =~= a0.skip(i + 1));
            let b = pow2(64) as int;
            assert(pow2(64) == 0x1_0000_0000_0000_0000) by {
                lemma2_to64_rest();
            }
            let vh = limbs_val(hi) as int;
            assert(limbs_val(lo) == limb + b * vh);
            assert(limbs_val(lo0) == x + b * (2 * vh + carry_in));
            assert(b * (2 * vh + carry_in) == 2 * (b * vh) + b * carry_in) by (nonlinear_arith);
            assert(2 * limb + carry == (carry_in as int) * b + x);
        }
    }
    proof {
        assert(a@.skip(0) =~= a@);
        assert(a0.skip(0) =~= a0);
    }
    carry == 1
}

/// A sequence whose limbs from `k` upward are zero has the value of its prefix.
pub proof fn lemma_val_high_zeros(s: Seq<u64>, k: int)
    requires
        0 <= k <= s.len(),
        forall|j: int| k <= j < s.len() ==> s[j] == 0,
    ensures
        limbs_val(s) == limbs_val(s.take(k)),
{
    lemma_val_split(s, k);
    lemma_val_zero(s.skip(k));
    assert(forall|j: int| 0 <= j < s.skip(k).len() ==> s.skip(k)[j] == 0);
    assert(limbs_val(s.skip(k)) == 0);
    assert(pow2((64 * k) as nat) * 0 == 0) by (nonlinear_arith);
}

/// Prepending `k` zero limbs multiplies the value by `pow2(64 k)`.
pub proof fn lemma_val_prepend_zeros(s: Seq<u64>, k: int)
    requires
        0 <= k,
        s.len() >= k,
        forall|j: int| 0 <= j < k ==> s[j] == 0,
    ensures
        limbs_val(s) == pow2((64 * k) as nat) * limbs_val(s.skip(k)),
{
    lemma_val_split(s, k);
    lemma_val_zero(s.take(k));
    assert(forall|j: int| 0 <= j < s.take(k).len() ==> s.take(k)[j] == 0);
    assert(limbs_val(s.take(k)) == 0);
}

/// Extends `a` with zero limbs up to length `n`; the value is unchanged.
pub fn pad_to(a: &mut Vec<u64>, n: usize)
    requires
        old(a).len() <= n,
    ensures
        final(a).len() == n,
        limbs_val(final(a)@) == limbs_val(old(a)@),
        forall|j: int| 0 <= j < old(a).len() ==> final(a)@[j] == old(a)@[j],
        forall|j: int| old(a).len() <= j < n ==> final(a)@[j] == 0,
{
    let ghost a0 = a@;
    while a.len() < n
        invariant
            a.len() <= n,
            a0.len() <= a.len(),
            forall|j: int| 0 <= j < a0.len() ==> a@[j] == a0[j],
            forall|j: int| a0.len() <= j < a.len() ==> a@[j] == 0,
            limbs_val(a@) == limbs_val(a0),
        decreases n - a.len(),
    {
        let ghost prev = a@;
        a.push(0);
        proof {
            assert(a@.take(prev.len() as int) =~= prev);
            lemma_val_take_succ(a@, prev.len() as int);
            assert(a@.take(a@.len() as int) =~= a@);
            assert((0int) * pow2((64 * prev.len()) as nat) == 0) by (nonlinear_arith);
        }
    }
}

/// Multiplies a limb vector by a single limb; the result has one limb more.
pub fn mul1_limbs(a: &Vec<u64>, b: u64) -> (r: Vec<u64>)
    ensures
        r.len() == a.len() + 1,
        limbs_val(r@) == limbs_val(a@) * b,
{
    let n = a.len();
    let mut r: Vec<u64> = Vec::new();
    let mut carry: u64 = 0;
    let mut i: usize = 0;
    proof {
        assert(a@.take(0) =~= Seq::<u64>::empty());
        assert((0int) * (b as int) == 0) by (nonlinear_arith);
        assert(pow2(0) == 1) by {
            lemma2_to64();
        }
    }
    while i < n
        invariant
            i <= n,
            n == a.len(),
            r.len() == i,
            limbs_val(r@) + (carry as int) * pow2((64 * i) as nat) == limbs_val(a@.take(i as int))
                * b,
        decreases n - i,
    {
        let ghost r_prev = r@;
        let ghost carry_in = carry as int;
        proof {
            assert((a@[i as int] as u128) * (b as u128) <= (0xFFFF_FFFF_FFFF_FFFFu128)
                * 0xFFFF_FFFF_FFFF_FFFFu128) by (nonlinear_arith)
                requires
                    a@[i as int] <= 0xFFFF_FFFF_FFFF_FFFFu64 && b <= 0xFFFF_FFFF_FFFF_FFFFu64,
            ;
        }
        let t: u128 = (a[i] as u128) * (b as u128) + (carry as u128);
        let limb: u64 = (t % 0x1_0000_0000_0000_0000u128) as u64;
        proof {
            assert(t >> 64u128 == t / 0x1_0000_0000_0000_0000u128) by (bit_vector);
            assert(t / 0x1_0000_0000_0000_0000u128 <= 0xFFFF_FFFF_FFFF_FFFFu128)
                by (nonlinear_arith)
                requires
                    t <= 0x1_0000_0000_0000_0000u128 * 0x1_0000_0000_0000_0000u128
                        - 0x1_0000_0000_0000_0000u128,
            ;
            assert(t <= 0x1_0000_0000_0000_0000u128 * 0x1_0000_0000_0000_0000u128
                - 0x1_0000_0000_0000_0000u128) by (nonlinear_arith)
                requires
                    t <= (0xFFFF_FFFF_FFFF_FFFFu128) * 0xFFFF_FFFF_FFFF_FFFFu128
                        + 0xFFFF_FFFF_FFFF_FFFFu128,
            ;
        }
        let new_carry: u64 = (t >> 64u128) as u64;
        r.push(limb);
        carry = new_carry;
        proof {
            let bb = 0x1_0000_0000_0000_0000 as int;
            assert(t >> 64u128 == t / 0x1_0000_0000_0000_0000u128) by (bit_vector);
            assert(t == bb * (t as int / bb) + t as int % bb) by {
                lemma_fundamental_div_mod(t as int, bb);
            }
            assert(limb + bb * (new_carry as int) == a@[i as int] * b + carry_in);
            assert(r@ =~= r_prev.push(limb));
            assert(r@.take(i as int) =~= r_prev);
            lemma_val_take_succ(r@, i as int);
            assert(r@.take(i + 1) =~= r@);
            lemma_val_take_succ(a@, i as int);
            let p = pow2((64 * i) as nat) as int;
            lemma_pow2_adds((64 * i) as nat, 64);
            assert(64 * (i + 1) == 64 * i + 64);
            assert(pow2(64) == 0x1_0000_0000_0000_0000) by {
                lemma2_to64_rest();
            }
            assert(pow2((64 * (i + 1)) as nat) == p * bb);
            let va = limbs_val(a@.take(i as int)) as int;
            // (va + a[i] p) b == va b + (a[i] b) p ; and the new carry term folds in
            assert((va + a@[i as int] * p) * b == va * b + (a@[i as int] * b) * p)
                by (nonlinear_arith);
            assert((limb as int) * p == (a@[i as int] * b + carry_in - bb * (new_carry as int)) * p)
                by (nonlinear_arith)
                requires
                    limb == a@[i as int] * b + carry_in - bb * (new_carry as int),
            ;
            assert((a@[i as int] * b + carry_in - bb * (new_carry as int)) * p == (a@[i as int] * b)
                * p + carry_in * p - (new_carry as int) * (p * bb)) by (nonlinear_arith);
        }
        i += 1;
    }
    let ghost r_prev = r@;
    r.push(carry);
    proof {
        assert(r@.take(n as int) =~= r_prev);
        lemma_val_take_succ(r@, n as int);
        assert(r@.take(n + 1) =~= r@);
        assert(a@.take(n as int) =~= a@);
    }
    r
}

/// Shifts left by whole limbs: prepends `k` zero limbs.
pub fn shl_limbs(a: &Vec<u64>, k: usize) -> (r: Vec<u64>)
    ensures
        r.len() == a.len() + k,
        limbs_val(r@) == pow2((64 * k) as nat) * limbs_val(a@),
{
    let mut r: Vec<u64> = Vec::new();
    let mut i: usize = 0;
    while i < k
        invariant
            i <= k,
            r.len() == i,
            forall|j: int| 0 <= j < i ==> r@[j] == 0,
        decreases k - i,
    {
        r.push(0);
        i += 1;
    }
    let mut j: usize = 0;
    while j < a.len()
        invariant
            j <= a.len(),
            r.len() == k + j,
            forall|t: int| 0 <= t < k ==> r@[t] == 0,
            forall|t: int| 0 <= t < j ==> r@[k + t] == a@[t],
        decreases a.len() - j,
    {
        r.push(a[j]);
        j += 1;
    }
    proof {
        lemma_val_prepend_zeros(r@, k as int);
        assert(r@.skip(k as int) =~= a@);
    }
    r
}

/// A well-formed 753-bit odd modulus held in `NLIMBS` limbs.
pub open spec fn modulus_wf(m: Seq<u64>) -> bool {
    &&& m.len() == NLIMBS
    &&& 1 <= m[NLIMBS - 1] < 0x100_0000_0000_0000
    &&& limbs_val(m) % 2 == 1
}

/// Bounds that every well-formed modulus satisfies.
pub proof fn lemma_modulus_bounds(m: Seq<u64>)
    requires
        modulus_wf(m),
    ensures
        pow2(704) <= limbs_val(m),
        limbs_val(m) < pow2(760),
        limbs_val(m) < (m[NLIMBS - 1] + 1) * pow2(704),
{
    lemma_val_split(m, 11);
    lemma_val_bound(m.take(11));
    assert(m.take(11).len() == 11);
    let hi = limbs_val(m.skip(11)) as int;
    let lo = limbs_val(m.take(11)) as int;
    let t = pow2(704) as int;
    assert(64 * 11 == 704);
    lemma_pow2_pos(704);
    assert(limbs_val(m.skip(11)) == m[11] + pow2(64) * limbs_val(m.skip(11).skip(1)));
    assert(m.skip(11).skip(1) =~= m.skip(12));
    assert(m.skip(12) =~= Seq::<u64>::empty());
    assert(pow2(64) * 0 == 0) by (nonlinear_arith);
    assert(hi == m[11]);
    assert(t * hi >= t * 1) by (nonlinear_arith)
        requires
            hi >= 1 && t > 0,
    ;
    assert(t * hi <= t * (m[11] as int)) by (nonlinear_arith)
        requires
            hi <= m[11] && t > 0,
    ;
    assert(limbs_val(m) == lo + t * hi);
    assert(limbs_val(m) < t + t * (m[11] as int));
    assert(t + t * (m[11] as int) == (m[11] + 1) * t) by (nonlinear_arith);
    assert((m[11] + 1) * t <= 0x100_0000_0000_0000 * t) by (nonlinear_arith)
        requires
            m[11] + 1 <= 0x100_0000_0000_0000 && t > 0,
    ;
    lemma_pow2_adds(56, 704);
    assert(pow2(56) == 0x100_0000_0000_0000) by {
        lemma2_to64_rest();
    }
    assert(pow2(760) == pow2(56) * pow2(704));
}


/// Reduces `x` modulo `m`, returning the canonical `NLIMBS`-limb residue.
pub fn mod_limbs(x: Vec<u64>, m: &Vec<u64>) -> (r: Vec<u64>)
    requires
        modulus_wf(m@),
        x.len() <= 64,
    ensures
        r.len() == NLIMBS,
        limbs_val(r@) == limbs_val(x@) % limbs_val(m@),
{
    let ghost x_init = x@;
    let mut x = x;
    let big = if x.len() >= NLIMBS {
        x.len() + 2
    } else {
        NLIMBS + 2
    };
    pad_to(&mut x, big);
    let ln = x.len();
    let mut mp = (*m).clone();
    proof {
        assert(mp@ =~= m@);
    }
    pad_to(&mut mp, ln);
    let ghost mval = limbs_val(m@);
    proof {
        lemma_modulus_bounds(m@);
        lemma_pow2_pos(704);
        assert(limbs_val(x@) == limbs_val(x_init));
        lemma_val_bound(x_init);
        if 64 * x_init.len() < 64 * (ln - 2) {
            lemma_pow2_strictly_increases((64 * x_init.len()) as nat, (64 * (ln - 2)) as nat);
        }
    }
    let mut done = false;
    while !done
        invariant
            x.len() == ln,
            mp.len() == ln,
            ln >= NLIMBS + 2,
            modulus_wf(m@),
            mval == limbs_val(m@),
            limbs_val(mp@) == mval,
            forall|j: int| NLIMBS <= j < ln ==> mp@[j] == 0,
            limbs_val(x@) % mval == limbs_val(x_init) % mval,
            limbs_val(x@) < pow2((64 * (ln - 2)) as nat),
            done ==> limbs_val(x@) < mval,
        decreases limbs_val(x@), (if done { 0int } else { 1int }),
    {
        // locate the limb count of x: limbs from hi upward are zero
        let mut hi: usize = ln;
        while hi > 0 && x[hi - 1] == 0
            invariant
                hi <= ln,
                x.len() == ln,
                forall|j: int| hi <= j < ln ==> x@[j] == 0,
            decreases hi,
        {
            hi -= 1;
        }
        proof {
            lemma_val_high_zeros(x@, hi as int);
        }
        if hi <= NLIMBS - 1 {
            // fewer than twelve limbs: the value is below 2^704 and so below the modulus
            proof {
                lemma_modulus_bounds(m@);
                lemma_val_bound(x@.take(hi as int));
                if 64 * hi < 704 {
                    lemma_pow2_strictly_increases((64 * hi) as nat, 704);
                }
            }
            done = true;
        } else if hi == NLIMBS && (x[NLIMBS - 1] as u128) < (m[NLIMBS - 1] as u128) + 1 {
            // the top limb is already below the divisor estimate: at most a
            // few plain subtractions remain
            if ge_limbs(&x, &mp) {
                let borrow = sub_limbs_in_place(&mut x, &mp);
                proof {
                    assert(!borrow);
                    lemma_mod_multiples_vanish(1, limbs_val(x@) as int, mval as int);
                }
            } else {
                done = true;
            }
        } else {
            let h = hi - 1;
            let xh: u64 = x[h];
            let xl: u64 = x[h - 1];
            proof {
                assert(xh != 0);
                lemma_val_split(x@, h as int);
                assert(limbs_val(x@.skip(h as int)) == x@[h as int] + pow2(64) * limbs_val(
                    x@.skip(h as int).skip(1),
                ));
                assert(x@.skip(h as int).skip(1) =~= x@.skip(h + 1));
                lemma_val_zero(x@.skip(h + 1));
                assert(forall|j: int|
                    0 <= j < x@.skip(h + 1).len() ==> #[trigger] x@.skip(h + 1)[j] == x@[h + 1
                        + j]);
                assert(limbs_val(x@.skip(h + 1)) == 0);
                assert(pow2(64) * 0 == 0) by (nonlinear_arith);
                assert(limbs_val(x@.skip(h as int)) == xh);
                // the top limb sits strictly below the working width
                let ph = pow2((64 * h) as nat) as int;
                lemma_pow2_pos((64 * h) as nat);
                assert(limbs_val(x@) >= ph * 1) by (nonlinear_arith)
                    requires
                        limbs_val(x@) == limbs_val(x@.take(h as int)) + ph * (xh as int),
                        limbs_val(x@.take(h as int)) >= 0,
                        xh >= 1,
                        ph > 0,
                ;
                if h > ln - 3 {
                    lemma_pow2_strictly_increases((64 * (ln - 2)) as nat, (64 * h) as nat);
                    assert(false);
                }
            }
            let den: u128 = (m[NLIMBS - 1] as u128) + 1;
            let ghost dd: int = den as int;
            let q: u64;
            let s: usize;
            let ghost top: int;
            let ghost sh: int;
            if (xh as u128) >= den {
                let q128: u128 = (xh as u128) / den;
                proof {
                    top = xh as int;
                    sh = (64 * h) as int;
                    lemma_fundamental_div_mod(top, dd);
                    assert(q128 <= top) by (nonlinear_arith)
                        requires
                            dd >= 1,
                            top >= 0,
                            q128 == top / dd,
                            dd * (top / dd) + top % dd == top,
                            0 <= top % dd < dd,
                    ;
                }
                q = q128 as u64;
                s = h - 11;
                proof {
                    assert(q == q128);
                    lemma_fundamental_div_mod(top, dd);
                    assert((q as int) * dd == dd * (top / dd))
                        by (nonlinear_arith)
                        requires
                            q == top / dd,
                    ;
                    assert((q as int) * dd <= top);
                    assert(top / dd >= 1) by (nonlinear_arith)
                        requires
                            top >= dd,
                            dd >= 1,
                            dd * (top / dd) + top % dd == top,
                            0 <= top % dd < dd,
                    ;
                    assert(q >= 1);
                }
            } else {
                proof {
                    // with the top limb below the divisor estimate, the
                    // twelve-limb window was handled by the branch above
                    assert(hi >= NLIMBS + 1);
                }
                let top2: u128 = ((xh as u128) << 64u128) | (xl as u128);
                proof {
                    assert(top2 == (xh as u128) * 0x1_0000_0000_0000_0000u128 + (xl as u128))
                        by (bit_vector)
                        requires
                            top2 == ((xh as u128) << 64u128) | (xl as u128),
                    ;
                }
                let q128: u128 = top2 / den;
                proof {
                    top = top2 as int;
                    sh = (64 * (h - 1)) as int;
                    lemma_fundamental_div_mod(top, dd);
                    assert(top < dd * 0x1_0000_0000_0000_0000) by (nonlinear_arith)
                        requires
                            top == (xh as int) * 0x1_0000_0000_0000_0000 + xl,
                            (xh as int) < dd,
                            xl < 0x1_0000_0000_0000_0000,
                    ;
                    assert(q128 < 0x1_0000_0000_0000_0000) by (nonlinear_arith)
                        requires
                            dd >= 1,
                            top >= 0,
                            q128 == top / dd,
                            top < dd * 0x1_0000_0000_0000_0000,
                            dd * (top / dd) + top % dd == top,
                            0 <= top % dd < dd,
                    ;
                }
                q = q128 as u64;
                s = h - 12;
                proof {
                    assert(q == q128);
                    lemma_fundamental_div_mod(top, dd);
                    assert((q as int) * dd == dd * (top / dd))
                        by (nonlinear_arith)
                        requires
                            q == top / dd,
                    ;
                    assert((q as int) * dd <= top);
                    assert(top >= 0x1_0000_0000_0000_0000) by (nonlinear_arith)
                        requires
                            top == (xh as int) * 0x1_0000_0000_0000_0000 + xl,
                            xh >= 1,
                    ;
                    assert(top / dd >= 1) by (nonlinear_arith)
                        requires
                            top >= dd,
                            dd >= 1,
                            dd * (top / dd) + top % dd == top,
                            0 <= top % dd < dd,
                    ;
                    assert(q >= 1);
                }
            }
            let t = mul1_limbs(m, q);
            let mut ts = shl_limbs(&t, s);
            proof {
                lemma_pow2_pos((64 * s) as nat);
                lemma_pow2_pos(704);
                lemma_modulus_bounds(m@);
                // value of the shifted product: 2^{64 s} * (M q); and it is at most x
                let ps = pow2((64 * s) as nat) as int;
                // dd bound above
                let tt = pow2(704) as int;
                assert(limbs_val(ts@) == ps * ((mval as int) * (q as int))) by (nonlinear_arith)
                    requires
                        limbs_val(ts@) == ps * limbs_val(t@),
                        limbs_val(t@) == (mval as int) * (q as int),
                ;
                assert(mval < dd * tt) by {
                    lemma_modulus_bounds(m@);
                }
                assert((mval as int) * (q as int) <= (dd * tt - 1) * (q as int))
                    by (nonlinear_arith)
                    requires
                        mval <= dd * tt - 1 && q >= 0,
                ;
                assert((dd * tt - 1) * (q as int) == ((q as int) * dd) * tt - (q as int))
                    by (nonlinear_arith);
                assert(((q as int) * dd) * tt <= top * tt) by (nonlinear_arith)
                    requires
                        (q as int) * dd <= top && tt > 0,
                ;
                assert((mval as int) * (q as int) <= top * tt - 1) by (nonlinear_arith)
                    requires
                        (mval as int) * (q as int) <= ((q as int) * dd) * tt - (q as int),
                        ((q as int) * dd) * tt <= top * tt,
                        q >= 1,
                ;
                lemma_pow2_adds((64 * s) as nat, 704);
                assert(64 * s + 704 == sh);
                let psh = pow2(sh as nat) as int;
                assert(psh == ps * tt);
                assert(ps * ((mval as int) * (q as int)) <= ps * (top * tt) - ps)
                    by (nonlinear_arith)
                    requires
                        (mval as int) * (q as int) <= top * tt - 1 && ps > 0,
                ;
                assert(ps * (top * tt) == psh * top) by (nonlinear_arith)
                    requires
                        psh == ps * tt,
                ;
                // x >= top * 2^{sh}
                if sh == 64 * h {
                    assert(limbs_val(x@) >= psh * top) by (nonlinear_arith)
                        requires
                            limbs_val(x@) == limbs_val(x@.take(h as int)) + psh * top,
                            limbs_val(x@.take(h as int)) >= 0,
                    ;
                } else {
                    lemma_val_split(x@, (h - 1) as int);
                    assert(limbs_val(x@.skip(h - 1)) == x@[h - 1] + pow2(64) * limbs_val(
                        x@.skip(h - 1).skip(1),
                    ));
                    assert(x@.skip(h - 1).skip(1) =~= x@.skip(h as int));
                    assert(limbs_val(x@.skip(h - 1)) == top) by {
                        assert(pow2(64) == 0x1_0000_0000_0000_0000) by {
                            lemma2_to64_rest();
                        }
                        assert(pow2(64) * (xh as int) == (xh as int) * 0x1_0000_0000_0000_0000)
                            by (nonlinear_arith)
                            requires
                                pow2(64) == 0x1_0000_0000_0000_0000,
                        ;
                    }
                    assert(limbs_val(x@) >= psh * top) by (nonlinear_arith)
                        requires
                            limbs_val(x@) == limbs_val(x@.take(h - 1)) + psh * top,
                            limbs_val(x@.take(h - 1)) >= 0,
                    ;
                }
                assert(limbs_val(ts@) <= limbs_val(x@));
                lemma_pow2_pos((64 * s) as nat);
                assert(limbs_val(ts@) >= 1) by (nonlinear_arith)
                    requires
                        limbs_val(ts@) == (pow2((64 * s) as nat) as int) * ((mval as int) * (q
                            as int)),
                        pow2((64 * s) as nat) >= 1,
                        mval >= 1,
                        q >= 1,
                ;
                // the shifted product fits in the working width: its own length suffices
                lemma_val_bound(ts@);
                assert(ts@.len() == NLIMBS + 1 + s);
                assert(NLIMBS + 1 + s <= ln);
            }
            pad_to(&mut ts, ln);
            let ghost xv_before = limbs_val(x@);
            let borrow = sub_limbs_in_place(&mut x, &ts);
            proof {
                assert(!borrow);
                let ps = pow2((64 * s) as nat) as int;
                let k = ps * (q as int);
                assert((mval as int) * k == ps * ((mval as int) * (q as int)))
                    by (nonlinear_arith)
                    requires
                        k == ps * (q as int),
                ;
                assert(limbs_val(x@) == xv_before - (mval as int) * k);
                lemma_mod_multiples_vanish(k, limbs_val(x@) as int, mval as int);
            }
        }
    }
    // all limbs from NLIMBS upward are now zero, so the low twelve carry the value
    proof {
        lemma_val_bound(x@.take(NLIMBS as int));
        lemma_val_split(x@, NLIMBS as int);
        let hz = limbs_val(x@.skip(NLIMBS as int)) as int;
        let pt = pow2(768) as int;
        assert(64 * NLIMBS == 768);
        lemma_pow2_pos(768);
        assert(pow2(760) < pow2(768)) by {
            lemma_pow2_strictly_increases(760, 768);
        }
        if hz >= 1 {
            assert(pt * hz >= pt * 1) by (nonlinear_arith)
                requires
                    hz >= 1 && pt > 0,
            ;
            assert(false);
        }
        assert(pt * hz == 0) by (nonlinear_arith)
            requires
                hz == 0,
        ;
        assert(limbs_val(x@) == limbs_val(x@.take(NLIMBS as int)));
        lemma_small_mod(limbs_val(x@), mval);
    }
    let ghost x_final = x@;
    let mut r = x;
    r.truncate(NLIMBS);
    proof {
        assert(x_final.take(NLIMBS as int) =~= x_final.subrange(0, NLIMBS as int));
    }
    r
}

/// Adds two residues modulo `m`.
pub fn add_mod_limbs(a: &Vec<u64>, b: &Vec<u64>, m: &Vec<u64>) -> (r: Vec<u64>)
    requires
        modulus_wf(m@),
        a.len() == NLIMBS,
        b.len() == NLIMBS,
        limbs_val(a@) < limbs_val(m@),
        limbs_val(b@) < limbs_val(m@),
    ensures
        r.len() == NLIMBS,
        limbs_val(r@) == (limbs_val(a@) + limbs_val(b@)) % limbs_val(m@),
        limbs_val(r@) < limbs_val(m@),
{
    let ghost mval = limbs_val(m@);
    let mut r = (*a).clone();
    proof {
        assert(r@ =~= a@);
        lemma_modulus_bounds(m@);
        lemma_pow2_strictly_increases(760, 768);
        assert(64 * NLIMBS == 768);
    }
    let carry = add_limbs_in_place(&mut r, b);
    proof {
        lemma_pow2_adds(1, 760);
        assert(pow2(1) == 2) by {
            lemma2_to64();
        }
        lemma_pow2_strictly_increases(761, 768);
        if carry {
            lemma_pow2_pos(768);
            assert(false);
        }
    }
    if ge_limbs(&r, m) {
        let borrow = sub_limbs_in_place(&mut r, m);
        proof {
            assert(!borrow);
            lemma_mod_multiples_vanish(1, limbs_val(r@) as int, mval as int);
            lemma_small_mod(limbs_val(r@), mval);
        }
    } else {
        proof {
            lemma_small_mod(limbs_val(r@), mval);
        }
    }
    r
}

/// Multiplies two `NLIMBS`-limb numbers and reduces modulo `m`.
pub fn mul_mod_limbs(a: &Vec<u64>, b: &Vec<u64>, m: &Vec<u64>) -> (r: Vec<u64>)
    requires
        modulus_wf(m@),
        a.len() == NLIMBS,
        b.len() == NLIMBS,
    ensures
        r.len() == NLIMBS,
        limbs_val(r@) == (limbs_val(a@) * limbs_val(b@)) % limbs_val(m@),
        limbs_val(r@) < limbs_val(m@),
{
    let ghost mval = limbs_val(m@);
    let wide: usize = 2 * NLIMBS;
    let mut acc: Vec<u64> = Vec::new();
    pad_to(&mut acc, wide);
    proof {
        lemma_val_high_zeros(acc@, 0);
        assert(acc@.take(0) =~= Seq::<u64>::empty());
        assert(b@.take(0) =~= Seq::<u64>::empty());
        assert((limbs_val(a@) as int) * 0 == 0) by (nonlinear_arith);
    }
    let mut i: usize = 0;
    while i < NLIMBS
        invariant
            i <= NLIMBS,
            a.len() == NLIMBS,
            b.len() == NLIMBS,
            acc.len() == wide,
            wide == 2 * NLIMBS,
            limbs_val(acc@) == limbs_val(a@) * limbs_val(b@.take(i as int)),
        decreases NLIMBS - i,
    {
        let t = mul1_limbs(a, b[i]);
        let mut ts = shl_limbs(&t, i);
        proof {
            lemma_val_bound(t@);
            let ps = pow2((64 * i) as nat) as int;
            let pt = pow2((64 * (NLIMBS + 1)) as nat) as int;
            lemma_pow2_adds((64 * i) as nat, (64 * (NLIMBS + 1)) as nat);
            lemma_pow2_pos((64 * i) as nat);
            assert(limbs_val(ts@) < ps * pt) by (nonlinear_arith)
                requires
                    limbs_val(ts@) == ps * limbs_val(t@),
                    limbs_val(t@) < pt,
                    ps > 0,
            ;
        }
        pad_to(&mut ts, wide);
        let ghost acc_before = limbs_val(acc@);
        let ghost ts_val = limbs_val(ts@);
        let carry = add_limbs_in_place(&mut acc, &ts);
        proof {
            // no carry: the running value is bounded by the full product
            let av = limbs_val(a@) as int;
            let bv = limbs_val(b@.take(i + 1)) as int;
            lemma_val_take_succ(b@, i as int);
            let ps = pow2((64 * i) as nat) as int;
            assert(limbs_val(t@) == av * (b@[i as int] as int));
            assert(acc_before + ts_val == av * bv) by (nonlinear_arith)
                requires
                    acc_before == av * limbs_val(b@.take(i as int)),
                    ts_val == ps * (av * (b@[i as int] as int)),
                    bv == limbs_val(b@.take(i as int)) + (b@[i as int] as int) * ps,
            ;
            lemma_val_bound(a@);
            lemma_val_bound(b@.take(i + 1));
            assert(b@.take(i + 1).len() == i + 1);
            let pa = pow2((64 * NLIMBS) as nat) as int;
            let pb = pow2((64 * (i + 1)) as nat) as int;
            lemma_pow2_adds((64 * NLIMBS) as nat, (64 * (i + 1)) as nat);
            assert(av * bv < pa * pb) by (nonlinear_arith)
                requires
                    0 <= av && av < pa && 0 <= bv && bv < pb && pa > 0 && pb > 0,
            ;
            assert(64 * NLIMBS + 64 * (i + 1) <= 64 * (2 * NLIMBS));
            if 64 * NLIMBS + 64 * (i + 1) < 64 * (2 * NLIMBS) {
                lemma_pow2_strictly_increases(
                    (64 * NLIMBS + 64 * (i + 1)) as nat,
                    (64 * (2 * NLIMBS)) as nat,
                );
            }
            if carry {
                lemma_pow2_pos((64 * (2 * NLIMBS)) as nat);
                assert(false);
            }
        }
        i += 1;
    }
    proof {
        assert(b@.take(NLIMBS as int) =~= b@);
    }
    mod_limbs(acc, m)
}

/// Half of `b` modulo an odd `m`: the value `h` with `2 h` congruent to `b`.
pub open spec fn half_mod_s(b: nat, m: nat) -> nat {
    if b % 2 == 0 {
        b / 2
    } else {
        (b + m) / 2
    }
}

/// Difference of residues modulo `m`.
pub open spec fn sub_mod_s(b: nat, d: nat, m: nat) -> nat {
    if b >= d {
        (b - d) as nat
    } else {
        (b + m - d) as nat
    }
}

/// Binary extended-gcd inversion: starting from `(u, v, b, d) = (x, m, 1, 0)`
/// it returns the residue `d` with `d x` congruent to `1` when the gcd reaches
/// one, and `0` otherwise.
pub open spec fn inv_step(u: nat, v: nat, b: nat, d: nat, m: nat) -> nat
    decreases u + v,
{
    if u == 0 || v == 0 {
        if v == 1 {
            d
        } else {
            0
        }
    } else if u % 2 == 0 {
        inv_step(u / 2, v, half_mod_s(b, m), d, m)
    } else if v % 2 == 0 {
        inv_step(u, v / 2, b, half_mod_s(d, m), m)
    } else if u >= v {
        inv_step((u - v) as nat, v, sub_mod_s(b, d, m), d, m)
    } else {
        inv_step(u, (v - u) as nat, b, sub_mod_s(d, b, m), m)
    }
}

/// Two numbers are congruent exactly when their difference vanishes modulo `m`.
pub proof fn lemma_cong(a: int, b: int, m: int)
    requires
        m >= 1,
    ensures
        (a % m == b % m) <==> ((a - b) % m == 0),
{
    lemma_fundamental_div_mod(a, m);
    lemma_fundamental_div_mod(b, m);
    if a % m == b % m {
        assert(a - b == m * (a / m) - m * (b / m)) by (nonlinear_arith)
            requires
                a == m * (a / m) + a % m && b == m * (b / m) + b % m && a % m == b % m,
        ;
        assert(m * (a / m) - m * (b / m) == m * (a / m - b / m)) by (nonlinear_arith);
        lemma_mod_multiples_vanish(a / m - b / m, 0, m);
        assert((0int) % m == 0) by {
            lemma_small_mod(0, m as nat);
        }
    }
    if (a - b) % m == 0 {
        lemma_fundamental_div_mod(a - b, m);
        assert(a == m * ((a - b) / m) + b);
        lemma_mod_multiples_vanish((a - b) / m, b, m);
    }
}

/// For odd `m`: if `m` divides `2 k` then `m` divides `k`.
pub proof fn lemma_odd_divides_half(k: int, m: int)
    requires
        m >= 1,
        m % 2 == 1,
        (2 * k) % m == 0,
    ensures
        k % m == 0,
{
    lemma_fundamental_div_mod(2 * k, m);
    let q = (2 * k) / m;
    assert(2 * k == m * q);
    if q % 2 == 1 {
        lemma_fundamental_div_mod(q, 2);
        lemma_fundamental_div_mod(m, 2);
        let q2 = q / 2;
        let m2 = m / 2;
        assert(m * q == 2 * (2 * m2 * q2 + m2 + q2) + 1) by (nonlinear_arith)
            requires
                q == 2 * q2 + 1 && m == 2 * m2 + 1,
        ;
        assert((2 * k) % 2 == 0) by {
            lemma_mod_multiples_vanish(k, 0, 2);
            lemma_small_mod(0nat, 2);
        }
        assert((m * q) % 2 == 1) by {
            lemma_mod_multiples_vanish(2 * m2 * q2 + m2 + q2, 1, 2);
            lemma_small_mod(1nat, 2);
        }
        assert(false);
    }
    lemma_fundamental_div_mod(q, 2);
    let q2 = q / 2;
    assert(q == 2 * q2);
    assert(2 * k == 2 * (m * q2)) by (nonlinear_arith)
        requires
            2 * k == m * q && q == 2 * q2,
    ;
    assert(k == m * q2);
    lemma_mod_multiples_vanish(q2, 0, m);
    lemma_small_mod(0, m as nat);
}

/// Residue updates used by the inversion stay below the modulus.
pub proof fn lemma_half_sub_bounds(b: nat, d: nat, m: nat)
    requires
        m >= 1,
        b < m,
        d < m,
    ensures
        half_mod_s(b, m) < m,
        half_mod_s(d, m) < m,
        sub_mod_s(b, d, m) < m,
        sub_mod_s(d, b, m) < m,
{
    lemma_fundamental_div_mod((b + m) as int, 2);
    lemma_fundamental_div_mod((d + m) as int, 2);
    lemma_fundamental_div_mod(b as int, 2);
    lemma_fundamental_div_mod(d as int, 2);
    assert((b + m) / 2 < m) by (nonlinear_arith)
        requires
            b < m,
            (b + m) as int == 2 * (((b + m) as int) / 2) + ((b + m) as int) % 2,
            0 <= ((b + m) as int) % 2 < 2,
    ;
    assert((d + m) / 2 < m) by (nonlinear_arith)
        requires
            d < m,
            (d + m) as int == 2 * (((d + m) as int) / 2) + ((d + m) as int) % 2,
            0 <= ((d + m) as int) % 2 < 2,
    ;
    assert(b / 2 < m) by (nonlinear_arith)
        requires
            b < m,
            b as int == 2 * ((b as int) / 2) + (b as int) % 2,
            0 <= (b as int) % 2 < 2,
    ;
    assert(d / 2 < m) by (nonlinear_arith)
        requires
            d < m,
            d as int == 2 * ((d as int) / 2) + (d as int) % 2,
            0 <= (d as int) % 2 < 2,
    ;
}

/// The inversion recursion keeps the Bezout-style congruences, so a non-zero
/// result multiplied by `x` is congruent to one.
pub proof fn lemma_inv_step_correct(u: nat, v: nat, b: nat, d: nat, m: nat, x: nat)
    requires
        m % 2 == 1,
        m >= 3,
        b < m,
        d < m,
        (b * x) % m == u % m,
        (d * x) % m == v % m,
    ensures
        inv_step(u, v, b, d, m) == 0 || (inv_step(u, v, b, d, m) * x) % m == 1,
    decreases u + v,
{
    let mi = m as int;
    // the updated coefficients stay below the modulus
    assert(half_mod_s(b, m) < m && half_mod_s(d, m) < m && sub_mod_s(b, d, m) < m && sub_mod_s(
        d,
        b,
        m,
    ) < m) by {
        lemma_half_sub_bounds(b, d, m);
    }
    if u == 0 || v == 0 {
        if v == 1 {
            lemma_small_mod(1nat, m);
            assert((d * x) % m == 1nat % m);
        }
    } else if u % 2 == 0 {
        let hb = half_mod_s(b, m);
        assert(2 * hb == b || 2 * hb == b + m) by {
            if b % 2 == 0 {
                lemma_fundamental_div_mod(b as int, 2);
            } else {
                lemma_fundamental_div_mod((b + m) as int, 2);
                assert((b + m) % 2 == 0) by {
                    lemma_mod_adds(b as int, m as int, 2);
                }
            }
        }
        // (2 hb x) is congruent to (b x), hence to u, hence to 2 (u/2)
        assert(((2 * hb) * x) % m == (b * x) % m) by {
            if 2 * hb == b + m {
                assert((2 * hb) * x == b * x + m * x) by (nonlinear_arith)
                    requires
                        2 * hb == b + m,
                ;
                lemma_mod_multiples_vanish(x as int, (b * x) as int, mi);
            }
        }
        assert(2 * (u / 2) == u) by {
            lemma_fundamental_div_mod(u as int, 2);
        }
        assert((2 * (hb * x)) % m == (2 * (u / 2)) % m) by (nonlinear_arith)
            requires
                ((2 * hb) * x) % m == u % m && 2 * (u / 2) == u,
        ;
        assert((hb * x) % m == (u / 2) % m) by {
            lemma_cong(2 * ((hb * x) as int), 2 * ((u / 2) as int), mi);
            assert(2 * ((hb * x) as int) - 2 * ((u / 2) as int) == 2 * ((hb * x) - (u / 2)));
            lemma_odd_divides_half((hb * x) as int - (u / 2) as int, mi);
            lemma_cong((hb * x) as int, (u / 2) as int, mi);
        }
        lemma_inv_step_correct(u / 2, v, hb, d, m, x);
    } else if v % 2 == 0 {
        let hd = half_mod_s(d, m);
        assert(2 * hd == d || 2 * hd == d + m) by {
            if d % 2 == 0 {
                lemma_fundamental_div_mod(d as int, 2);
            } else {
                lemma_fundamental_div_mod((d + m) as int, 2);
                assert((d + m) % 2 == 0) by {
                    lemma_mod_adds(d as int, m as int, 2);
                }
            }
        }
        assert(((2 * hd) * x) % m == (d * x) % m) by {
            if 2 * hd == d + m {
                assert((2 * hd) * x == d * x + m * x) by (nonlinear_arith)
                    requires
                        2 * hd == d + m,
                ;
                lemma_mod_multiples_vanish(x as int, (d * x) as int, mi);
            }
        }
        assert(2 * (v / 2) == v) by {
            lemma_fundamental_div_mod(v as int, 2);
        }
        assert((2 * (hd * x)) % m == (2 * (v / 2)) % m) by (nonlinear_arith)
            requires
                ((2 * hd) * x) % m == v % m && 2 * (v / 2) == v,
        ;
        assert((hd * x) % m == (v / 2) % m) by {
            lemma_cong(2 * ((hd * x) as int), 2 * ((v / 2) as int), mi);
            lemma_odd_divides_half((hd * x) as int - (v / 2) as int, mi);
            lemma_cong((hd * x) as int, (v / 2) as int, mi);
        }
        lemma_inv_step_correct(u, v / 2, b, hd, m, x);
    } else if u >= v {
        let sb = sub_mod_s(b, d, m);
        assert((sb * x) % m == ((u - v) as nat) % m) by {
            assert(sb as int == b - d || sb as int == b + m - d);
            assert((sb * x) as int == (b * x) as int - (d * x) as int || (sb * x) as int == (b * x)
                as int - (d * x) as int + m * x) by (nonlinear_arith)
                requires
                    sb as int == b - d || sb as int == b + m - d,
            ;
            if (sb * x) as int == (b * x) as int - (d * x) as int + m * x {
                lemma_mod_multiples_vanish(
                    x as int,
                    (b * x) as int - (d * x) as int,
                    mi,
                );
                lemma_cong((sb * x) as int, (b * x) as int - (d * x) as int, mi);
            }
            // b x - d x is congruent to u - v
            lemma_cong((b * x) as int, u as int, mi);
            lemma_cong((d * x) as int, v as int, mi);
            let k1 = ((b * x) as int - u) / mi;
            let k2 = ((d * x) as int - v) / mi;
            lemma_fundamental_div_mod((b * x) as int - u, mi);
            lemma_fundamental_div_mod((d * x) as int - v, mi);
            assert(((b * x) as int - (d * x) as int) - (u - v) == mi * (k1 - k2))
                by (nonlinear_arith)
                requires
                    (b * x) as int - u == mi * k1 + (((b * x) as int - u) % mi),
                    (d * x) as int - v == mi * k2 + (((d * x) as int - v) % mi),
                    (((b * x) as int - u) % mi) == 0,
                    (((d * x) as int - v) % mi) == 0,
            ;
            lemma_mod_multiples_vanish(k1 - k2, 0, mi);
            lemma_small_mod(0nat, m);
            lemma_cong(((b * x) as int - (d * x) as int), u - v, mi);
            lemma_cong((sb * x) as int, u - v, mi);
        }
        lemma_inv_step_correct((u - v) as nat, v, sb, d, m, x);
    } else {
        let sd = sub_mod_s(d, b, m);
        assert((sd * x) % m == ((v - u) as nat) % m) by {
            assert(sd as int == d - b || sd as int == d + m - b);
            assert((sd * x) as int == (d * x) as int - (b * x) as int || (sd * x) as int == (d * x)
                as int - (b * x) as int + m * x) by (nonlinear_arith)
                requires
                    sd as int == d - b || sd as int == d + m - b,
            ;
            if (sd * x) as int == (d * x) as int - (b * x) as int + m * x {
                lemma_mod_multiples_vanish(
                    x as int,
                    (d * x) as int - (b * x) as int,
                    mi,
                );
                lemma_cong((sd * x) as int, (d * x) as int - (b * x) as int, mi);
            }
            lemma_cong((b * x) as int, u as int, mi);
            lemma_cong((d * x) as int, v as int, mi);
            let k1 = ((d * x) as int - v) / mi;
            let k2 = ((b * x) as int - u) / mi;
            lemma_fundamental_div_mod((d * x) as int - v, mi);
            lemma_fundamental_div_mod((b * x) as int - u, mi);
            assert(((d * x) as int - (b * x) as int) - (v - u) == mi * (k1 - k2))
                by (nonlinear_arith)
                requires
                    (d * x) as int - v == mi * k1 + (((d * x) as int - v) % mi),
                    (b * x) as int - u == mi * k2 + (((b * x) as int - u) % mi),
                    (((d * x) as int - v) % mi) == 0,
                    (((b * x) as int - u) % mi) == 0,
            ;
            lemma_mod_multiples_vanish(k1 - k2, 0, mi);
            lemma_small_mod(0nat, m);
            lemma_cong(((d * x) as int - (b * x) as int), v - u, mi);
            lemma_cong((sd * x) as int, v - u, mi);
        }
        lemma_inv_step_correct(u, (v - u) as nat, b, sd, m, x);
    }
}

/// The inversion recursion keeps its result below the modulus.
pub proof fn lemma_inv_step_bound(u: nat, v: nat, b: nat, d: nat, m: nat)
    requires
        m >= 1,
        b < m,
        d < m,
    ensures
        inv_step(u, v, b, d, m) < m,
    decreases u + v,
{
    if u == 0 || v == 0 {
    } else {
        lemma_half_sub_bounds(b, d, m);
        if u % 2 == 0 {
            lemma_inv_step_bound(u / 2, v, half_mod_s(b, m), d, m);
        } else if v % 2 == 0 {
            lemma_inv_step_bound(u, v / 2, b, half_mod_s(d, m), m);
        } else if u >= v {
            lemma_inv_step_bound((u - v) as nat, v, sub_mod_s(b, d, m), d, m);
        } else {
            lemma_inv_step_bound(u, (v - u) as nat, b, sub_mod_s(d, b, m), m);
        }
    }
}

/// The inversion entered at `(x, m, 1, 0)` yields zero or a modular inverse of `x`.
pub proof fn lemma_inv_of(x: nat, m: nat)
    requires
        m % 2 == 1,
        m >= 3,
    ensures
        inv_step(x, m, 1, 0, m) == 0 || (inv_step(x, m, 1, 0, m) * x) % m == 1,
{
    assert((1 * x) % m == x % m) by (nonlinear_arith);
    assert((0 * x) % m == m % m) by {
        assert((0int) * (x as int) == 0) by (nonlinear_arith);
        lemma_small_mod(0nat, m);
        lemma_mod_self_0(m as int);
    }
    lemma_inv_step_correct(x, m, 1, 0, m, x);
}

/// Halves a residue modulo the odd modulus `m`, in place.
pub fn half_mod_limbs(x: &mut Vec<u64>, m: &Vec<u64>)
    requires
        modulus_wf(m@),
        old(x).len() == NLIMBS,
        limbs_val(old(x)@) < limbs_val(m@),
    ensures
        final(x).len() == NLIMBS,
        limbs_val(final(x)@) == half_mod_s(limbs_val(old(x)@), limbs_val(m@)),
        limbs_val(final(x)@) < limbs_val(m@),
{
    let ghost mval = limbs_val(m@);
    let ghost xv = limbs_val(x@);
    if is_even_limbs(x) {
        let lost = shr1_in_place(x);
        proof {
            let v2 = limbs_val(x@) as int;
            assert(2 * v2 + (if lost { 1int } else { 0int }) == xv);
            lemma_mod_multiples_vanish(v2, if lost { 1int } else { 0int }, 2);
            lemma_small_mod(if lost { 1nat } else { 0nat }, 2);
            assert(!lost);
            lemma_fundamental_div_mod(xv as int, 2);
        }
    } else {
        let carry = add_limbs_in_place(x, m);
        proof {
            lemma_modulus_bounds(m@);
            lemma_pow2_adds(1, 760);
            assert(pow2(1) == 2) by {
                lemma2_to64();
            }
            lemma_pow2_strictly_increases(761, 768);
            assert(64 * NLIMBS == 768);
            if carry {
                lemma_pow2_pos(768);
                assert(false);
            }
        }
        let lost = shr1_in_place(x);
        proof {
            let v2 = limbs_val(x@) as int;
            assert(2 * v2 + (if lost { 1int } else { 0int }) == xv + mval);
            assert((xv + mval) % 2 == 0) by {
                lemma_mod_adds(xv as int, mval as int, 2);
            }
            lemma_mod_multiples_vanish(v2, if lost { 1int } else { 0int }, 2);
            lemma_small_mod(if lost { 1nat } else { 0nat }, 2);
            assert(!lost);
            lemma_fundamental_div_mod((xv + mval) as int, 2);
            // (x + m) / 2 < m because x < m
            assert(v2 < mval) by (nonlinear_arith)
                requires
                    2 * v2 == xv + mval && xv < mval,
            ;
        }
    }
}

/// Subtracts residues modulo `m`, in place on the left operand.
pub fn sub_mod_limbs(x: &mut Vec<u64>, y: &Vec<u64>, m: &Vec<u64>)
    requires
        modulus_wf(m@),
        old(x).len() == NLIMBS,
        y.len() == NLIMBS,
        limbs_val(old(x)@) < limbs_val(m@),
        limbs_val(y@) < limbs_val(m@),
    ensures
        final(x).len() == NLIMBS,
        limbs_val(final(x)@) == sub_mod_s(limbs_val(old(x)@), limbs_val(y@), limbs_val(m@)),
        limbs_val(final(x)@) < limbs_val(m@),
{
    if ge_limbs(x, y) {
        let borrow = sub_limbs_in_place(x, y);
        proof {
            assert(!borrow);
        }
    } else {
        let carry = add_limbs_in_place(x, m);
        proof {
            lemma_modulus_bounds(m@);
            lemma_pow2_adds(1, 760);
            assert(pow2(1) == 2) by {
                lemma2_to64();
            }
            lemma_pow2_strictly_increases(761, 768);
            assert(64 * NLIMBS == 768);
            if carry {
                lemma_pow2_pos(768);
                assert(false);
            }
        }
        let borrow = sub_limbs_in_place(x, y);
        proof {
            assert(!borrow);
        }
    }
}

/// A fresh vector of `NLIMBS` zero limbs.
pub fn zero_limbs() -> (r: Vec<u64>)
    ensures
        r.len() == NLIMBS,
        limbs_val(r@) == 0,
{
    let mut r: Vec<u64> = Vec::new();
    pad_to(&mut r, NLIMBS);
    proof {
        lemma_val_zero(r@);
    }
    r
}

/// A fresh vector of `NLIMBS` limbs holding the value one.
pub fn one_limbs() -> (r: Vec<u64>)
    ensures
        r.len() == NLIMBS,
        limbs_val(r@) == 1,
{
    let mut r: Vec<u64> = Vec::new();
    r.push(1);
    pad_to(&mut r, NLIMBS);
    proof {
        lemma_val_high_zeros(r@, 1);
        let one = r@.take(1);
        assert(one.len() == 1 && one[0] == 1);
        assert(one.skip(1) =~= Seq::<u64>::empty());
        assert(limbs_val(one) == (one[0] + pow2(64) * limbs_val(one.skip(1))) as nat);
        assert(pow2(64) * 0 == 0) by (nonlinear_arith);
    }
    r
}

/// Computes the binary extended-gcd inversion of `x` modulo `m`.
pub fn inv_mod_limbs(x: &Vec<u64>, m: &Vec<u64>) -> (r: Vec<u64>)
    requires
        modulus_wf(m@),
        x.len() == NLIMBS,
        limbs_val(x@) < limbs_val(m@),
    ensures
        r.len() == NLIMBS,
        limbs_val(r@) < limbs_val(m@),
        limbs_val(r@) == inv_step(limbs_val(x@), limbs_val(m@), 1, 0, limbs_val(m@)),
{
    let ghost mval = limbs_val(m@);
    let ghost x0 = limbs_val(x@);
    let mut u = (*x).clone();
    let mut v = (*m).clone();
    let mut b = one_limbs();
    let mut d = zero_limbs();
    proof {
        assert(u@ =~= x@);
        assert(v@ =~= m@);
        lemma_modulus_bounds(m@);
        lemma_pow2_pos(704);
        assert(pow2(1) == 2) by {
            lemma2_to64();
        }
        lemma_pow2_strictly_increases(1, 704);
    }
    while !is_zero_limbs(&u)
        invariant
            u.len() == NLIMBS,
            v.len() == NLIMBS,
            b.len() == NLIMBS,
            d.len() == NLIMBS,
            modulus_wf(m@),
            mval == limbs_val(m@),
            mval >= 3,
            limbs_val(v@) >= 1,
            limbs_val(b@) < mval,
            limbs_val(d@) < mval,
            inv_step(limbs_val(u@), limbs_val(v@), limbs_val(b@), limbs_val(d@), mval)
                == inv_step(x0, mval, 1, 0, mval),
        decreases limbs_val(u@) + limbs_val(v@),
    {
        let ghost uo = limbs_val(u@);
        let ghost vo = limbs_val(v@);
        let ghost bo = limbs_val(b@);
        let ghost do_ = limbs_val(d@);
        if is_even_limbs(&u) {
            let lost = shr1_in_place(&mut u);
            proof {
                let v2 = limbs_val(u@) as int;
                lemma_mod_multiples_vanish(v2, if lost { 1int } else { 0int }, 2);
                lemma_small_mod(if lost { 1nat } else { 0nat }, 2);
                assert(!lost);
                lemma_fundamental_div_mod(uo as int, 2);
            }
            half_mod_limbs(&mut b, m);
            proof {
                assert(uo != 0 && vo != 0 && uo % 2 == 0);
                assert(limbs_val(u@) == uo / 2);
            }
        } else if is_even_limbs(&v) {
            let lost = shr1_in_place(&mut v);
            proof {
                let v2 = limbs_val(v@) as int;
                lemma_mod_multiples_vanish(v2, if lost { 1int } else { 0int }, 2);
                lemma_small_mod(if lost { 1nat } else { 0nat }, 2);
                assert(!lost);
                lemma_fundamental_div_mod(vo as int, 2);
                assert(limbs_val(v@) == vo / 2);
                assert(vo >= 2) by {
                    lemma_fundamental_div_mod(vo as int, 2);
                }
                assert(limbs_val(v@) >= 1);
            }
            half_mod_limbs(&mut d, m);
            proof {
                assert(uo != 0 && vo != 0 && uo % 2 != 0 && vo % 2 == 0);
            }
        } else if ge_limbs(&u, &v) {
            let borrow = sub_limbs_in_place(&mut u, &v);
            proof {
                assert(!borrow);
            }
            sub_mod_limbs(&mut b, &d, m);
            proof {
                assert(uo != 0 && vo != 0 && uo % 2 != 0 && vo % 2 != 0 && uo >= vo);
            }
        } else {
            let borrow = sub_limbs_in_place(&mut v, &u);
            proof {
                assert(!borrow);
            }
            sub_mod_limbs(&mut d, &b, m);
            proof {
                assert(uo != 0 && vo != 0 && uo % 2 != 0 && vo % 2 != 0 && uo < vo);
                assert(limbs_val(v@) >= 1);
            }
        }
    }
    // u is zero: the recursion stops, returning d when v reached one
    proof {
        assert(limbs_val(u@) == 0);
    }
    let mut v_is_one = v[0] == 1;
    let mut j: usize = 1;
    while j < NLIMBS
        invariant
            1 <= j <= NLIMBS,
            v.len() == NLIMBS,
            v_is_one == (v@[0] == 1 && forall|t: int| 1 <= t < j ==> v@[t] == 0),
        decreases NLIMBS - j,
    {
        if v[j] != 0 {
            v_is_one = false;
        }
        j += 1;
    }
    proof {
        // v_is_one reflects the value of v being one
        if v_is_one {
            lemma_val_high_zeros(v@, 1);
            let one = v@.take(1);
            assert(one.len() == 1 && one[0] == 1);
            assert(one.skip(1) =~= Seq::<u64>::empty());
            assert(limbs_val(one) == (one[0] + pow2(64) * limbs_val(one.skip(1))) as nat);
            assert(pow2(64) * 0 == 0) by (nonlinear_arith);
            assert(limbs_val(v@) == 1);
        } else {
            if limbs_val(v@) == 1 {
                lemma_val_zero(v@.skip(1));
                let b64 = pow2(64) as int;
                let rest = limbs_val(v@.skip(1)) as int;
                lemma_pow2_pos(64);
                assert(pow2(64) >= 2) by {
                    lemma2_to64_rest();
                }
                assert(limbs_val(v@) == v@[0] + b64 * rest);
                if rest >= 1 {
                    assert(b64 * rest >= b64 * 1) by (nonlinear_arith)
                        requires
                            rest >= 1 && b64 > 0,
                    ;
                    assert(false);
                }
                assert(b64 * rest == 0) by (nonlinear_arith)
                    requires
                        rest == 0,
                ;
                assert(v@[0] == 1);
                assert(forall|t: int| 1 <= t < NLIMBS ==> v@[t] == 0) by {
                    assert forall|t: int| 1 <= t < NLIMBS implies v@[t] == 0 by {
                        assert(v@.skip(1)[t - 1] == 0);
                    }
                }
                assert(false);
            }
        }
    }
    if v_is_one {
        d
    } else {
        let z = zero_limbs();
        proof {
            lemma_pow2_pos(704);
        }
        z
    }
}

} // verus!
