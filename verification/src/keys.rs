//! Stable byte encodings for the persistent stores.
//!
//! A persistent shell keys the leaf store by the leaf index and the node
//! cache by the coordinate pair, both in the fixed-width little-endian form
//! the serializer produces; values are field elements as 96 big-endian
//! bytes in canonical form. The encoders here are what such a shell feeds
//! the key-value store.
use vstd::prelude::*;
use vstd::arithmetic::power2::{pow2, lemma_pow2_adds, lemma2_to64, lemma2_to64_rest};
use vstd::arithmetic::div_mod::{lemma_fundamental_div_mod, lemma_div_denominator};
use crate::bignum::{NLIMBS, limbs_val};
use crate::field::Fp;
use crate::smt::Coord;

verus! {

/// The eight little-endian bytes of a word.
pub open spec fn u64_le_bytes(v: u64) -> Seq<u8> {
    seq![
        (v % 256) as u8,
        ((v / 0x100) % 256) as u8,
        ((v / 0x1_0000) % 256) as u8,
        ((v / 0x100_0000) % 256) as u8,
        ((v / 0x1_0000_0000) % 256) as u8,
        ((v / 0x100_0000_0000) % 256) as u8,
        ((v / 0x1_0000_0000_0000) % 256) as u8,
        ((v / 0x100_0000_0000_0000) % 256) as u8,
    ]
}

/// Relies on `bincode::serialize` with its default configuration, which
/// writes a `u64` as its eight bytes, fixed width, little endian.
#[verifier::external_body]
fn bincode_u64(v: u64) -> (r: Vec<u8>)
    ensures
        r@ == u64_le_bytes(v),
{
    bincode::serialize(&v).unwrap_or_default()
}

/// Relies on `bincode::serialize` with its default configuration, which
/// writes a pair of `u64` as the two fixed-width little-endian words in
/// order.
#[verifier::external_body]
fn bincode_u64_pair(a: u64, b: u64) -> (r: Vec<u8>)
    ensures
        r@ == u64_le_bytes(a) + u64_le_bytes(b),
{
    bincode::serialize(&(a, b)).unwrap_or_default()
}

/// The store key of a leaf: its index, serialized.
pub fn leaf_db_key(idx: u64) -> (r: Vec<u8>)
    ensures
        r@ == u64_le_bytes(idx),
{
    bincode_u64(idx)
}

/// The store key of a cached node: its coordinate pair, serialized.
pub fn node_cache_key(coord: Coord) -> (r: Vec<u8>)
    ensures
        r@ == u64_le_bytes(coord.height as u64) + u64_le_bytes(coord.idx as u64),
{
    bincode_u64_pair(coord.height as u64, coord.idx as u64)
}

/// A word is recovered from its little-endian bytes, so distinct indices
/// have distinct store keys.
pub proof fn lemma_u64_le_bytes_injective(a: u64, b: u64)
    requires
        u64_le_bytes(a) == u64_le_bytes(b),
    ensures
        a == b,
{
    lemma_le_bytes_recover(a);
    lemma_le_bytes_recover(b);
}

/// The value rebuilt from the eight little-endian bytes of a word.
pub open spec fn le8_val(s: Seq<u8>) -> int
    recommends
        s.len() == 8,
{
    s[0] + s[1] * 0x100 + s[2] * 0x1_0000 + s[3] * 0x100_0000 + s[4] * 0x1_0000_0000 + s[5]
        * 0x100_0000_0000 + s[6] * 0x1_0000_0000_0000 + s[7] * 0x100_0000_0000_0000
}

/// Splitting a word into little-endian bytes loses nothing.
pub proof fn lemma_le_bytes_recover(v: u64)
    ensures
        le8_val(u64_le_bytes(v)) == v,
{
    lemma_fundamental_div_mod(v as int, 0x100);
    lemma_fundamental_div_mod(v as int / 0x100, 0x100);
    lemma_fundamental_div_mod(v as int / 0x1_0000, 0x100);
    lemma_fundamental_div_mod(v as int / 0x100_0000, 0x100);
    lemma_fundamental_div_mod(v as int / 0x1_0000_0000, 0x100);
    lemma_fundamental_div_mod(v as int / 0x100_0000_0000, 0x100);
    lemma_fundamental_div_mod(v as int / 0x1_0000_0000_0000, 0x100);
    lemma_fundamental_div_mod(v as int / 0x100_0000_0000_0000, 0x100);
    lemma_div_chain_256(v as int, 0x100, 0x1_0000);
    lemma_div_chain_256(v as int, 0x1_0000, 0x100_0000);
    lemma_div_chain_256(v as int, 0x100_0000, 0x1_0000_0000);
    lemma_div_chain_256(v as int, 0x1_0000_0000, 0x100_0000_0000);
    lemma_div_chain_256(v as int, 0x100_0000_0000, 0x1_0000_0000_0000);
    lemma_div_chain_256(v as int, 0x1_0000_0000_0000, 0x100_0000_0000_0000);
    assert(v as int / 0x100_0000_0000_0000 < 0x100) by (nonlinear_arith)
        requires
            0 <= v < 0x1_0000_0000_0000_0000,
    ;
    assert(v as int / 0x100_0000_0000_0000 % 0x100 == v as int / 0x100_0000_0000_0000) by {
        vstd::arithmetic::div_mod::lemma_small_mod(
            (v as int / 0x100_0000_0000_0000) as nat,
            0x100,
        );
    }
}

/// Dividing twice by byte-sized powers chains into one division.
proof fn lemma_div_chain_256(x: int, a: int, b: int)
    requires
        x >= 0,
        a >= 1,
        b == a * 0x100,
    ensures
        (x / a) / 0x100 == x / b,
{
    lemma_div_denominator(x, a, 0x100);
}

/// The value of big-endian bytes: each byte shifts what came before.
pub open spec fn be_bytes_val(s: Seq<u8>) -> nat
    decreases s.len(),
{
    if s.len() == 0 {
        0
    } else {
        (be_bytes_val(s.drop_last()) * 256 + s.last()) as nat
    }
}

/// One byte of a word, counted from the most significant end.
fn be_byte_of(x: u64, k: usize) -> (r: u8)
    requires
        k < 8,
    ensures
        r == (x as nat / pow2((8 * (7 - k)) as nat)) % 256,
{
    proof {
        lemma2_to64();
        lemma2_to64_rest();
        assert(pow2(56) == 0x100_0000_0000_0000 && pow2(48) == 0x1_0000_0000_0000 && pow2(40)
            == 0x100_0000_0000 && pow2(32) == 0x1_0000_0000 && pow2(24) == 0x100_0000 && pow2(16)
            == 0x1_0000 && pow2(8) == 0x100 && pow2(0) == 1);
        assert(x as nat / pow2(0) == x) by {
            lemma_fundamental_div_mod(x as int, 1);
        }
    }
    if k == 0 {
        ((x / 0x100_0000_0000_0000) % 256) as u8
    } else if k == 1 {
        ((x / 0x1_0000_0000_0000) % 256) as u8
    } else if k == 2 {
        ((x / 0x100_0000_0000) % 256) as u8
    } else if k == 3 {
        ((x / 0x1_0000_0000) % 256) as u8
    } else if k == 4 {
        ((x / 0x100_0000) % 256) as u8
    } else if k == 5 {
        ((x / 0x1_0000) % 256) as u8
    } else if k == 6 {
        ((x / 0x100) % 256) as u8
    } else {
        (x % 256) as u8
    }
}

/// Serializes a field element as 96 big-endian bytes of its canonical value.
pub fn field_to_bytes(f: &Fp) -> (r: Vec<u8>)
    requires
        f.limbs.len() == NLIMBS,
    ensures
        r@.len() == 96,
        be_bytes_val(r@) == f@,
{
    let mut out: Vec<u8> = Vec::new();
    let mut j: usize = NLIMBS;
    proof {
        assert(f.limbs@.skip(NLIMBS as int) =~= Seq::<u64>::empty());
    }
    while j > 0
        invariant
            j <= NLIMBS,
            f.limbs.len() == NLIMBS,
            out.len() == 8 * (NLIMBS - j),
            be_bytes_val(out@) == limbs_val(f.limbs@.skip(j as int)),
        decreases j,
    {
        j -= 1;
        let x = f.limbs[j];
        let ghost before = be_bytes_val(out@);
        let mut k: usize = 0;
        proof {
            lemma2_to64();
            lemma2_to64_rest();
            assert(pow2(0) == 1 && pow2(64) == 0x1_0000_0000_0000_0000);
            assert((x as nat) / pow2(64) == 0) by (nonlinear_arith)
                requires
                    x < pow2(64),
                    pow2(64) >= 1,
            ;
            assert(before * pow2(0) == before) by (nonlinear_arith)
                requires
                    pow2(0) == 1,
            ;
            assert(be_bytes_val(out@) == before * pow2((8 * 0) as nat) + (x as nat) / pow2(
                (64 - 8 * 0) as nat,
            ));
        }
        while k < 8
            invariant
                k <= 8,
                j < NLIMBS,
                f.limbs.len() == NLIMBS,
                x == f.limbs@[j as int],
                out.len() == 8 * (NLIMBS - j - 1) + k,
                be_bytes_val(out@) == before * pow2((8 * k) as nat) + (x as nat) / pow2(
                    (64 - 8 * k) as nat,
                ),
            decreases 8 - k,
        {
            let b = be_byte_of(x, k);
            let ghost prev_out = out@;
            out.push(b);
            proof {
                assert(out@.drop_last() =~= prev_out);
                let e1 = (8 * k) as nat;
                let e2 = (64 - 8 * (k + 1)) as nat;
                lemma2_to64();
                lemma2_to64_rest();
                lemma_pow2_adds(e1, 8);
                assert(pow2(8) == 256);
                // peeling one byte off the running quotient
                lemma_div_denominator(x as int, pow2(e2) as int, 256);
                vstd::arithmetic::power2::lemma_pow2_pos(e2);
                vstd::arithmetic::power2::lemma_pow2_pos(e1);
                assert(pow2(e2) * 256 == pow2((64 - 8 * k) as nat)) by {
                    lemma_pow2_adds(e2, 8);
                }
                lemma_fundamental_div_mod((x as int) / (pow2(e2) as int), 256);
                assert(be_bytes_val(prev_out) == before * pow2(e1) + (x as nat) / pow2(
                    (64 - 8 * k) as nat,
                ));
                assert(out@.last() == b);
                assert(be_bytes_val(out@) == (be_bytes_val(out@.drop_last()) * 256
                    + out@.last()) as nat);
                assert(be_bytes_val(out@.drop_last()) == be_bytes_val(prev_out));
                assert(be_bytes_val(out@) == (before * pow2(e1) + (x as nat) / pow2(
                    (64 - 8 * k) as nat,
                )) * 256 + b);
                let aa = before as int;
                let bb = pow2(e1) as int;
                let cc = ((x as nat) / pow2((64 - 8 * k) as nat)) as int;
                assert((aa * bb + cc) * 256 == aa * (bb * 256) + cc * 256) by (nonlinear_arith);
                assert((before * pow2(e1) + (x as nat) / pow2((64 - 8 * k) as nat)) * 256 == before
                    * (pow2(e1) * 256) + ((x as nat) / pow2((64 - 8 * k) as nat)) * 256);
                assert(before * (pow2(e1) * 256) == before * pow2((8 * (k + 1)) as nat));
                lemma_div_denominator(x as int, pow2(e2) as int, 256);
                assert((pow2(e2) as int) * 256 == pow2((64 - 8 * k) as nat) as int);
                assert(((x as int) / (pow2(e2) as int)) / 256 == (x as int) / ((pow2(
                    e2,
                ) as int) * 256));
                assert((x as int) / ((pow2(e2) as int) * 256) == (x as int) / (pow2(
                    (64 - 8 * k) as nat,
                ) as int)) by {
                    assert((pow2(e2) as int) * 256 == pow2((64 - 8 * k) as nat) as int);
                }
                assert(((x as int) / (pow2(e2) as int)) / 256 == (x as int) / (pow2(
                    (64 - 8 * k) as nat,
                ) as int));
                assert(((x as int) / (pow2((64 - 8 * k) as nat) as int)) * 256 + (b as int) == (
                x as int) / (pow2(e2) as int)) by (nonlinear_arith)
                    requires
                        (b as int) == ((x as int) / (pow2(e2) as int)) % 256,
                        ((x as int) / (pow2(e2) as int)) / 256 == (x as int) / (pow2(
                            (64 - 8 * k) as nat,
                        ) as int),
                        256 * (((x as int) / (pow2(e2) as int)) / 256) + ((x as int) / (pow2(
                            e2,
                        ) as int)) % 256 == (x as int) / (pow2(e2) as int),
                ;
                assert(((x as nat) / pow2((64 - 8 * k) as nat)) * 256 + b == (x as nat) / pow2(
                    e2,
                ));
            }
            k += 1;
        }
        proof {
            let rest = f.limbs@.skip(j as int);
            assert(rest[0] == x);
            assert(rest.skip(1) =~= f.limbs@.skip(j + 1));
            assert(pow2(0) == 1) by {
                lemma2_to64();
            }
            assert((x as nat) / pow2(0) == x) by {
                lemma_fundamental_div_mod(x as int, 1);
            }
            assert(limbs_val(rest) == x + pow2(64) * limbs_val(f.limbs@.skip(j + 1)));
            assert(be_bytes_val(out@) == limbs_val(f.limbs@.skip(j + 1)) * pow2(64) + x);
            assert(limbs_val(f.limbs@.skip(j + 1)) * pow2(64) == pow2(64) * limbs_val(
                f.limbs@.skip(j + 1),
            )) by (nonlinear_arith);
        }
    }
    proof {
        assert(f.limbs@.skip(0) =~= f.limbs@);
    }
    out
}

/// The byte encoding is injective on canonical elements: equal encodings
/// mean equal field elements, so stored values are recovered unambiguously.
pub proof fn lemma_field_bytes_injective(a: Fp, b: Fp, ba: Seq<u8>, bb: Seq<u8>)
    requires
        a.limbs.len() == NLIMBS,
        b.limbs.len() == NLIMBS,
        be_bytes_val(ba) == a@,
        be_bytes_val(bb) == b@,
        ba == bb,
    ensures
        a.limbs@ == b.limbs@,
{
    crate::field::lemma_fp_canonical(a, b);
}

} // verus!
