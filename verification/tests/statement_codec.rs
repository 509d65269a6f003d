use linreg_verifier::errors::VerifyError;
use linreg_verifier::field::MODULUS;
use linreg_verifier::inputs::LinearRegressionInputs;

fn wire(x: u128, y: u128, xs: &[u128], ys: &[u128]) -> Vec<u8> {
    bincode::serialize(&(x, y, xs.to_vec(), ys.to_vec())).unwrap()
}

#[test]
fn statement_decodes_from_its_wire_form() {
    let bytes = wire(4, 8, &[1, 2, 3], &[2, 4, 6]);
    let inputs = LinearRegressionInputs::decode(&bytes).unwrap();
    assert_eq!(inputs.x_value, 4);
    assert_eq!(inputs.predicted_y, 8);
    assert_eq!(inputs.sample_x_values, vec![1, 2, 3]);
    assert_eq!(inputs.sample_y_values, vec![2, 4, 6]);
}

#[test]
fn wire_form_is_fixed_width_little_endian() {
    let mut bytes = Vec::new();
    bytes.extend_from_slice(&5u128.to_le_bytes());
    bytes.extend_from_slice(&(MODULUS - 1).to_le_bytes());
    bytes.extend_from_slice(&1u64.to_le_bytes());
    bytes.extend_from_slice(&7u128.to_le_bytes());
    bytes.extend_from_slice(&0u64.to_le_bytes());
    assert_eq!(bytes.len(), 64);
    let inputs = LinearRegressionInputs::decode(&bytes).unwrap();
    assert_eq!(inputs.x_value, 5);
    assert_eq!(inputs.predicted_y, MODULUS - 1);
    assert_eq!(inputs.sample_x_values, vec![7]);
    assert!(inputs.sample_y_values.is_empty());
}

#[test]
fn truncated_statement_is_refused() {
    let mut bytes = wire(4, 8, &[1, 2, 3], &[2, 4, 6]);
    bytes.pop();
    assert!(matches!(LinearRegressionInputs::decode(&bytes), Err(VerifyError::InputDecode)));
    assert!(matches!(LinearRegressionInputs::decode(&[]), Err(VerifyError::InputDecode)));
}

#[test]
fn trailing_bytes_are_refused() {
    let mut bytes = wire(4, 8, &[1, 2, 3], &[2, 4, 6]);
    bytes.push(0);
    assert!(matches!(LinearRegressionInputs::decode(&bytes), Err(VerifyError::InputDecode)));
}

#[test]
fn wrong_length_prefix_is_refused() {
    let mut bytes = wire(4, 8, &[1, 2, 3], &[2, 4, 6]);
    bytes[32] = 200;
    assert!(matches!(LinearRegressionInputs::decode(&bytes), Err(VerifyError::InputDecode)));
}

#[test]
fn values_at_or_above_the_modulus_are_refused() {
    for bytes in [
        wire(MODULUS, 8, &[1], &[2]),
        wire(4, u128::MAX, &[1], &[2]),
        wire(4, 8, &[1, MODULUS], &[2, 3]),
        wire(4, 8, &[1, 2], &[MODULUS + 1, 3]),
    ] {
        assert!(matches!(LinearRegressionInputs::decode(&bytes), Err(VerifyError::InputDecode)));
    }
    assert!(LinearRegressionInputs::decode(&wire(MODULUS - 1, 0, &[], &[])).is_ok());
}

#[test]
fn from_fields_keeps_the_values() {
    let inputs = LinearRegressionInputs::from_fields(1, 2, vec![3, 4], vec![5]).unwrap();
    assert_eq!(inputs.x_value, 1);
    assert_eq!(inputs.predicted_y, 2);
    assert_eq!(inputs.sample_x_values, vec![3, 4]);
    assert_eq!(inputs.sample_y_values, vec![5]);
    assert!(matches!(
        LinearRegressionInputs::from_fields(1, MODULUS, vec![], vec![]),
        Err(VerifyError::InputDecode)
    ));
}

#[test]
fn elements_are_point_prediction_inputs_outputs() {
    let inputs = LinearRegressionInputs::from_fields(4, 8, vec![1, 2, 3], vec![2, 4, 6]).unwrap();
    assert_eq!(inputs.to_elements(), vec![4, 8, 1, 2, 3, 2, 4, 6]);
    let empty = LinearRegressionInputs::from_fields(9, 10, vec![], vec![]).unwrap();
    assert_eq!(empty.to_elements(), vec![9, 10]);
}
