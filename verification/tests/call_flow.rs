use linreg_verifier::calldata::decode_call_data;
use linreg_verifier::entry::{
    check_fit, classify, prepare_verification, respond, EngineFailure, ProofShape,
    MIN_SECURITY_BITS,
};
use linreg_verifier::errors::VerifyError;
use linreg_verifier::inputs::LinearRegressionInputs;

fn statement_bytes(xs: &[u128], ys: &[u128]) -> Vec<u8> {
    bincode::serialize(&(4u128, 8u128, xs.to_vec(), ys.to_vec())).unwrap()
}

fn shape(trace_width: usize, aux_width: usize, trace_length: usize) -> Option<ProofShape> {
    Some(ProofShape { trace_width, aux_width, trace_length })
}

fn envelope(proof: &[u8], inputs: &[u8]) -> Vec<u8> {
    let mut data = vec![0u8; 64];
    data[0..4].copy_from_slice(&(proof.len() as u32).to_be_bytes());
    data[32..36].copy_from_slice(&(inputs.len() as u32).to_be_bytes());
    data.extend_from_slice(proof);
    data.extend_from_slice(inputs);
    data
}

fn outcome_of(data: &[u8], proof: Option<ProofShape>) -> Result<(), VerifyError> {
    let payload = decode_call_data(data)?;
    prepare_verification(proof, payload.inputs_bytes).map(|_| ())
}

const REJECT: [u8; 32] = [0u8; 32];

#[test]
fn security_floor_is_95_bits() {
    assert_eq!(MIN_SECURITY_BITS, 95);
}

#[test]
fn well_formed_call_is_prepared() {
    let data = envelope(&[0xab; 5], &statement_bytes(&[1, 2, 3], &[2, 4, 6]));
    let payload = decode_call_data(&data).unwrap();
    assert_eq!(payload.proof_bytes, &[0xab; 5]);
    let inputs = prepare_verification(shape(4, 0, 8), payload.inputs_bytes).unwrap();
    assert_eq!(inputs.x_value, 4);
    assert_eq!(inputs.predicted_y, 8);
    assert_eq!(inputs.sample_x_values, vec![1, 2, 3]);
    assert_eq!(inputs.sample_y_values, vec![2, 4, 6]);
}

#[test]
fn malformed_call_data_is_answered_with_reject() {
    for data in [vec![], vec![0u8; 10], vec![0xffu8; 64]] {
        let outcome = outcome_of(&data, shape(4, 0, 8));
        assert_eq!(outcome, Err(VerifyError::CallData));
        assert_eq!(respond(outcome), REJECT);
    }
    let mut data = envelope(&[1, 2], &statement_bytes(&[1], &[2]));
    data.truncate(data.len() - 1);
    assert_eq!(outcome_of(&data, shape(4, 0, 8)), Err(VerifyError::CallData));
}

#[test]
fn undecodable_proof_is_refused_first() {
    let inputs = statement_bytes(&[1], &[2]);
    assert!(matches!(prepare_verification(None, &inputs), Err(VerifyError::ProofDecode)));
    assert!(matches!(prepare_verification(None, &[9]), Err(VerifyError::ProofDecode)));
}

#[test]
fn undecodable_statement_is_refused() {
    assert!(matches!(prepare_verification(shape(4, 0, 8), &[]), Err(VerifyError::InputDecode)));
    let mut inputs = statement_bytes(&[1], &[2]);
    inputs.push(0);
    assert!(matches!(
        prepare_verification(shape(4, 0, 8), &inputs),
        Err(VerifyError::InputDecode)
    ));
    assert!(matches!(
        prepare_verification(shape(3, 0, 8), &inputs),
        Err(VerifyError::InputDecode)
    ));
}

#[test]
fn proof_of_another_trace_shape_is_refused() {
    let inputs = statement_bytes(&[1], &[2]);
    for s in [shape(1, 0, 8), shape(5, 0, 8), shape(4, 1, 8), shape(4, 4, 8), shape(0, 0, 8)] {
        assert!(matches!(
            prepare_verification(s, &inputs),
            Err(VerifyError::ConstraintViolation)
        ));
    }
}

#[test]
fn trace_must_hold_a_row_for_the_prediction() {
    let inputs = LinearRegressionInputs::from_fields(4, 8, vec![1, 2, 3], vec![2, 4, 6]).unwrap();
    let fit = |trace_length: usize| {
        check_fit(ProofShape { trace_width: 4, aux_width: 0, trace_length }, &inputs)
    };
    assert_eq!(fit(3), Err(VerifyError::ConstraintViolation));
    assert_eq!(fit(0), Err(VerifyError::ConstraintViolation));
    assert_eq!(fit(4), Ok(()));
    assert_eq!(fit(8), Ok(()));
}

#[test]
fn unequal_sample_counts_are_rejected() {
    let data = envelope(&[], &statement_bytes(&[1, 2, 3], &[2, 4]));
    let outcome = outcome_of(&data, shape(4, 0, 8));
    assert_eq!(outcome, Err(VerifyError::ConstraintViolation));
    assert_eq!(respond(outcome), REJECT);
    let again = outcome_of(&data, shape(4, 0, 8));
    assert_eq!(again, Err(VerifyError::ConstraintViolation));
}

#[test]
fn same_call_data_gives_the_same_outcome_twice() {
    let data = envelope(&[7], &statement_bytes(&[1, 2, 3], &[2, 4, 6]));
    let run = || {
        let payload = decode_call_data(&data).unwrap();
        prepare_verification(shape(4, 0, 8), payload.inputs_bytes).map(|i| i.to_elements())
    };
    assert_eq!(run(), run());
    assert_eq!(run().unwrap(), vec![4, 8, 1, 2, 3, 2, 4, 6]);
    let bad = envelope(&[1, 2, 3], &[4]);
    assert_eq!(outcome_of(&bad, shape(4, 0, 8)), outcome_of(&bad, shape(4, 0, 8)));
}

#[test]
fn engine_failures_are_classified() {
    assert_eq!(classify(Ok(())), Ok(()));
    assert_eq!(classify(Err(EngineFailure::ProofDeserialization)), Err(VerifyError::ProofDecode));
    for f in [
        EngineFailure::InsufficientConjecturedSecurity,
        EngineFailure::InsufficientProvenSecurity,
        EngineFailure::UnacceptableProofOptions,
    ] {
        assert_eq!(classify(Err(f)), Err(VerifyError::SecurityLevelTooLow));
    }
    for f in [
        EngineFailure::InconsistentBaseField,
        EngineFailure::UnsupportedFieldExtension,
        EngineFailure::RandomCoin,
        EngineFailure::InconsistentOodConstraintEvaluations,
        EngineFailure::TraceQueryDoesNotMatchCommitment,
        EngineFailure::ConstraintQueryDoesNotMatchCommitment,
        EngineFailure::QuerySeedProofOfWorkVerificationFailed,
        EngineFailure::FriVerificationFailed,
    ] {
        assert_eq!(classify(Err(f)), Err(VerifyError::ConstraintViolation));
    }
}

#[test]
fn every_failure_gets_the_same_reject_word() {
    let mut accept = [0u8; 32];
    accept[31] = 1;
    assert_eq!(respond(Ok(())), accept);
    for e in [
        VerifyError::CallData,
        VerifyError::InputDecode,
        VerifyError::ProofDecode,
        VerifyError::ConstraintViolation,
        VerifyError::SecurityLevelTooLow,
    ] {
        assert_eq!(respond(Err(e)), REJECT);
    }
}
