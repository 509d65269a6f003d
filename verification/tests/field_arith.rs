use linreg_verifier::field::{check_all_canonical, field_add, field_mul, field_sub, MODULUS};

#[test]
fn modulus_is_two_pow_128_minus_45_two_pow_40_plus_one() {
    assert_eq!(MODULUS, u128::MAX - 45 * (1u128 << 40) + 2);
}

#[test]
fn add_wraps_at_the_modulus() {
    assert_eq!(field_add(3, 4), 7);
    assert_eq!(field_add(MODULUS - 1, 1), 0);
    assert_eq!(field_add(MODULUS - 1, MODULUS - 1), MODULUS - 2);
    assert_eq!(field_add(0, 0), 0);
}

#[test]
fn sub_wraps_below_zero() {
    assert_eq!(field_sub(7, 5), 2);
    assert_eq!(field_sub(5, 7), 340282366920938463463374557953744961535);
    assert_eq!(field_sub(0, 1), MODULUS - 1);
    assert_eq!(field_sub(9, 9), 0);
}

#[test]
fn mul_reduces_products_beyond_128_bits() {
    assert_eq!(field_mul(6, 7), 42);
    assert_eq!(field_mul(0, MODULUS - 1), 0);
    assert_eq!(field_mul(MODULUS - 1, MODULUS - 1), 1);
    assert_eq!(field_mul(1u128 << 127, 4), 98956046499838);
    assert_eq!(
        field_mul(123456789012345678901234567890, 987654321098765432109876543210),
        144893199062832355536501934531255648966
    );
}

#[test]
fn mul_is_commutative_on_samples() {
    let a: u128 = 0xdead_beef_0123_4567_89ab_cdef_0000_0001;
    let b: u128 = 0x0fed_cba9_8765_4321_0000_1111_2222_3333;
    assert_eq!(field_mul(a, b), field_mul(b, a));
}

#[test]
fn canonical_check_finds_the_modulus() {
    assert!(check_all_canonical(&[]));
    assert!(check_all_canonical(&[0, 1, MODULUS - 1]));
    assert!(!check_all_canonical(&[0, MODULUS, 1]));
    assert!(!check_all_canonical(&[u128::MAX]));
}
