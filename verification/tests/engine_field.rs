use linreg_verifier::field::{field_add, field_mul, field_sub, MODULUS};
use winterfell::math::fields::f128::BaseElement;
use winterfell::math::StarkField;

fn samples() -> Vec<u128> {
    let mut values = vec![0, 1, 2, 45 << 40, 1 << 64, 1 << 127, MODULUS - 2, MODULUS - 1];
    let mut seed: u128 = 0x9e37_79b9_7f4a_7c15_f39c_c060_5ced_c834;
    for _ in 0..24 {
        seed = seed.wrapping_mul(0x2545_f491_4f6c_dd1d_0000_0000_0000_0001).wrapping_add(12345);
        values.push(seed % MODULUS);
    }
    values
}

#[test]
fn arithmetic_agrees_with_the_engine_field() {
    for &a in &samples() {
        for &b in &samples() {
            let (ea, eb) = (BaseElement::new(a), BaseElement::new(b));
            assert_eq!(field_add(a, b), (ea + eb).as_int());
            assert_eq!(field_sub(a, b), (ea - eb).as_int());
            assert_eq!(field_mul(a, b), (ea * eb).as_int());
        }
    }
}
