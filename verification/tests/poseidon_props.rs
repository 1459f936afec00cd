//! Tests of the field layer, the sponge and the byte encodings.
use poseidon_smt::field::{fp_add, fp_from_limbs_reduced, fp_mul, fp_sbox, Fp};
use poseidon_smt::keys::{field_to_bytes, leaf_db_key, node_cache_key};
use poseidon_smt::params::{mnt4_753_parameters, mnt6_753_parameters};
use poseidon_smt::poseidon::{
    poseidon_hash_elements, poseidon_hash_pair, UpdatableBatchPoseidonHash, UpdatablePoseidonHash,
};
use poseidon_smt::smt::Coord;

fn hex_of(f: &Fp) -> String {
    let bytes = field_to_bytes(f);
    let mut s = String::new();
    for b in bytes {
        s.push_str(&format!("{:02x}", b));
    }
    s
}

#[test]
fn field_arithmetic_sanity() {
    let p = mnt4_753_parameters();
    let one = Fp::from_u64(1);
    let two = fp_add(&one, &one, &p.modulus);
    assert!(two.equals(&Fp::from_u64(2)));
    let six = fp_mul(&two, &Fp::from_u64(3), &p.modulus);
    assert!(six.equals(&Fp::from_u64(6)));
}

#[test]
fn sbox_inverts_and_fixes_zero() {
    let p = mnt4_753_parameters();
    let x = Fp::from_u64(7);
    let inv = fp_sbox(&x, &p.modulus);
    let back = fp_mul(&inv, &x, &p.modulus);
    assert!(back.equals(&Fp::from_u64(1)));
    let z = fp_sbox(&Fp::zero(), &p.modulus);
    assert!(z.equals(&Fp::zero()));
}

#[test]
fn hash_is_deterministic() {
    let p = mnt4_753_parameters();
    let input = vec![Fp::from_u64(11), Fp::from_u64(22), Fp::from_u64(33)];
    let again = vec![Fp::from_u64(11), Fp::from_u64(22), Fp::from_u64(33)];
    let d1 = poseidon_hash_elements(&p, &input);
    let d2 = poseidon_hash_elements(&p, &again);
    assert!(d1.equals(&d2));
}

#[test]
fn short_block_padding_collapses_but_extension_does_not() {
    // absorbing [a] equals absorbing [a, 0]: the short block behaves as if
    // zero-extended to the rate; a third element changes the digest
    let p = mnt4_753_parameters();
    let a = Fp::from_u64(1);
    let one = poseidon_hash_elements(&p, &vec![a.dup()]);
    let padded = poseidon_hash_elements(&p, &vec![a.dup(), Fp::zero()]);
    let longer = poseidon_hash_elements(&p, &vec![a.dup(), Fp::zero(), Fp::zero()]);
    assert!(one.equals(&padded));
    assert!(!one.equals(&longer));
}

#[test]
fn updatable_sponge_matches_one_shot() {
    let p = mnt4_753_parameters();
    let input = vec![Fp::from_u64(5), Fp::from_u64(6), Fp::from_u64(7)];
    let expected = poseidon_hash_elements(&p, &input);
    let mut h = UpdatablePoseidonHash::new(mnt4_753_parameters(), None);
    h.update(Fp::from_u64(5));
    h.update(Fp::from_u64(6));
    h.update(Fp::from_u64(7));
    let got = h.finalize();
    assert!(got.equals(&expected));
}

#[test]
fn batch_sponge_keeps_order() {
    let p = mnt4_753_parameters();
    let first = vec![Fp::from_u64(1), Fp::from_u64(2)];
    let second = vec![Fp::from_u64(3)];
    let e1 = poseidon_hash_elements(&p, &first);
    let e2 = poseidon_hash_elements(&p, &second);
    let mut h = UpdatableBatchPoseidonHash::new(mnt4_753_parameters(), Some(128));
    h.update(vec![Fp::from_u64(1), Fp::from_u64(2)]);
    h.update(vec![Fp::from_u64(3)]);
    let out = h.finalize();
    assert_eq!(out.len(), 2);
    assert!(out[0].equals(&e1));
    assert!(out[1].equals(&e2));
}

#[test]
fn digests_differ_between_the_two_fields() {
    let p4 = mnt4_753_parameters();
    let p6 = mnt6_753_parameters();
    let d4 = poseidon_hash_pair(&p4, &Fp::from_u64(1), &Fp::from_u64(2));
    let d6 = poseidon_hash_pair(&p6, &Fp::from_u64(1), &Fp::from_u64(2));
    assert!(!d4.equals(&d6));
}

#[test]
fn poseidon_digest_of_one_regression() {
    // pins the digest of the single element 1 under the first bundle, so a
    // change anywhere in the permutation or its tables is caught
    let p = mnt4_753_parameters();
    let d = poseidon_hash_elements(&p, &vec![Fp::from_u64(1)]);
    assert_eq!(hex_of(&d), "0000ec9220819ccdeb919d5882de43e281003d86922a28f485f4341dbb22c76e6a6cd1abcd57f9353db9e6f65a2f135907df1085ea4d0bd149f3ab8b84971d8e23b6ca8600a6d7a42442439b276a5a94b0ab5d8e44361f3463edf0f4b77ce1e2");
}

#[test]
fn store_keys_are_fixed_width_little_endian() {
    // a flipped byte order or a length change here would corrupt the stores
    let k = leaf_db_key(5);
    assert_eq!(k, vec![5u8, 0, 0, 0, 0, 0, 0, 0]);
    let k2 = leaf_db_key(0x0102_0304_0506_0708);
    assert_eq!(k2, vec![8u8, 7, 6, 5, 4, 3, 2, 1]);
    let ck = node_cache_key(Coord { height: 1, idx: 258 });
    assert_eq!(
        ck,
        vec![1u8, 0, 0, 0, 0, 0, 0, 0, 2, 1, 0, 0, 0, 0, 0, 0]
    );
}

#[test]
fn field_bytes_are_big_endian_canonical() {
    let f = Fp::from_u64(0x0102);
    let bytes = field_to_bytes(&f);
    assert_eq!(bytes.len(), 96);
    assert_eq!(bytes[95], 0x02);
    assert_eq!(bytes[94], 0x01);
    for i in 0..94 {
        assert_eq!(bytes[i], 0);
    }
}

#[test]
fn reduction_brings_large_limbs_into_the_field() {
    let p = mnt4_753_parameters();
    let mut limbs = Vec::new();
    for _ in 0..12 {
        limbs.push(u64::MAX);
    }
    let f = fp_from_limbs_reduced(limbs, &p.modulus);
    // the canonical value is below the modulus, so a second reduction of
    // its own limbs is the identity
    let again = fp_from_limbs_reduced(f.limbs.clone(), &p.modulus);
    assert!(f.equals(&again));
}
