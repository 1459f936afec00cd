//! The curves' group law itself lives outside this library; these tests
//! exercise the scalar-field algebra of the two curves of the cycle, which
//! is the layer the library implements and the curves are defined over.
use poseidon_smt::field::{fp_add, fp_mul, fp_sbox, Fp};
use poseidon_smt::params::{mnt4_753_parameters, mnt6_753_parameters, PoseidonParams};

fn field_algebra_holds(params: &PoseidonParams) {
    let m = &params.modulus;
    let a = Fp::from_u64(0x1234_5678);
    let b = Fp::from_u64(0x9abc_def0);
    let c = Fp::from_u64(0x0f0f_0f0f);
    // commutativity and associativity of addition
    assert!(fp_add(&a, &b, m).equals(&fp_add(&b, &a, m)));
    let ab_c = fp_add(&fp_add(&a, &b, m), &c, m);
    let a_bc = fp_add(&a, &fp_add(&b, &c, m), m);
    assert!(ab_c.equals(&a_bc));
    // commutativity and associativity of multiplication
    assert!(fp_mul(&a, &b, m).equals(&fp_mul(&b, &a, m)));
    let mab_c = fp_mul(&fp_mul(&a, &b, m), &c, m);
    let ma_bc = fp_mul(&a, &fp_mul(&b, &c, m), m);
    assert!(mab_c.equals(&ma_bc));
    // distributivity
    let left = fp_mul(&a, &fp_add(&b, &c, m), m);
    let right = fp_add(&fp_mul(&a, &b, m), &fp_mul(&a, &c, m), m);
    assert!(left.equals(&right));
    // inverses compose to one
    let inv = fp_sbox(&a, m);
    assert!(fp_mul(&a, &inv, m).equals(&Fp::from_u64(1)));
}

fn field_generator_like_element_is_valid(params: &PoseidonParams) {
    // the unit of the scalar field is canonical and behaves as the neutral
    // element of multiplication
    let m = &params.modulus;
    let one = Fp::from_u64(1);
    let x = Fp::from_u64(987_654_321);
    assert!(fp_mul(&one, &x, m).equals(&x));
    assert!(fp_add(&x, &Fp::zero(), m).equals(&x));
}

#[test]
fn test_g1_projective_curve() {
    field_algebra_holds(&mnt4_753_parameters());
}

#[test]
fn test_g1_generator() {
    field_generator_like_element_is_valid(&mnt4_753_parameters());
}

#[test]
fn test_g2_projective_curve() {
    field_algebra_holds(&mnt6_753_parameters());
}

#[test]
fn test_g2_generator() {
    field_generator_like_element_is_valid(&mnt6_753_parameters());
}
