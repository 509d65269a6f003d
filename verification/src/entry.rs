//! One verification call, from call data to response word.
//!
//! The proof engine runs outside this library, and so does the reading of a
//! proof. A call is prepared here: the call data is split, the statement is
//! decoded, and statement and proof are held against the constraint system.
//! The engine then checks the proof; what it finds is classified here and
//! encoded as the response.

use vstd::prelude::*;
use crate::air::LinearRegressionAir;
use crate::calldata::{encode_response, inputs_part, response_word, well_framed};
use crate::errors::VerifyError;
use crate::inputs::{wire_fields, fields_canonical, LinearRegressionInputs};

verus! {

/// The conjectured security, in bits, below which a proof is refused.
pub const MIN_SECURITY_BITS: u32 = 95;

/// What the constraint system needs to know of a decoded proof.
#[derive(Clone, Copy, Debug, PartialEq, Eq, Structural)]
pub struct ProofShape {
    /// Number of columns of the trace, all segments together.
    pub trace_width: usize,
    /// Number of columns of the auxiliary segment.
    pub aux_width: usize,
    /// Number of rows of the trace.
    pub trace_length: usize,
}

/// Why the engine refused a proof.
#[derive(Clone, Copy, Debug, PartialEq, Eq, Structural)]
pub enum EngineFailure {
    InconsistentBaseField,
    UnsupportedFieldExtension,
    ProofDeserialization,
    RandomCoin,
    InconsistentOodConstraintEvaluations,
    TraceQueryDoesNotMatchCommitment,
    ConstraintQueryDoesNotMatchCommitment,
    QuerySeedProofOfWorkVerificationFailed,
    FriVerificationFailed,
    InsufficientConjecturedSecurity,
    InsufficientProvenSecurity,
    UnacceptableProofOptions,
}

/// The class of an engine failure.
pub open spec fn failure_class(failure: EngineFailure) -> VerifyError {
    match failure {
        EngineFailure::ProofDeserialization => VerifyError::ProofDecode,
        EngineFailure::InsufficientConjecturedSecurity => VerifyError::SecurityLevelTooLow,
        EngineFailure::InsufficientProvenSecurity => VerifyError::SecurityLevelTooLow,
        EngineFailure::UnacceptableProofOptions => VerifyError::SecurityLevelTooLow,
        _ => VerifyError::ConstraintViolation,
    }
}

/// A proof fits a statement when its trace has the four columns of the
/// constraint system in a single segment, the statement has as many sample
/// outputs as sample inputs, and the trace is long enough to hold a row for
/// every sample and one for the predicted point.
pub open spec fn fits(shape: ProofShape, xs: Seq<u128>, ys: Seq<u128>) -> bool {
    &&& shape.trace_width == 4
    &&& shape.aux_width == 0
    &&& xs.len() == ys.len()
    &&& 2 * xs.len() + 2 <= usize::MAX
    &&& xs.len() < shape.trace_length
}

/// Whether what was read from proof bytes and statement bytes makes a
/// request, and if not, why: the proof is looked at first, then the
/// statement, then whether the two fit.
pub open spec fn admission(
    shape: Option<ProofShape>,
    fields: Option<(u128, u128, Seq<u128>, Seq<u128>)>,
) -> Result<(), VerifyError> {
    match shape {
        None => Err(VerifyError::ProofDecode),
        Some(s) => match fields {
            None => Err(VerifyError::InputDecode),
            Some(f) => if !fields_canonical(f.0, f.1, f.2, f.3) {
                Err(VerifyError::InputDecode)
            } else if !fits(s, f.2, f.3) {
                Err(VerifyError::ConstraintViolation)
            } else {
                Ok(())
            },
        },
    }
}

/// The outcome of a call with the given call data, where reading the proof
/// bytes gave `shape` and the engine, if asked, finds `engine`.
pub open spec fn call_outcome(
    data: Seq<u8>,
    shape: Option<ProofShape>,
    engine: Result<(), EngineFailure>,
) -> Result<(), VerifyError> {
    if !well_framed(data) {
        Err(VerifyError::CallData)
    } else {
        match admission(shape, wire_fields(inputs_part(data))) {
            Err(e) => Err(e),
            Ok(_) => match engine {
                Ok(_) => Ok(()),
                Err(f) => Err(failure_class(f)),
            },
        }
    }
}

/// The response to a call.
pub open spec fn call_response(
    data: Seq<u8>,
    shape: Option<ProofShape>,
    engine: Result<(), EngineFailure>,
) -> Seq<u8> {
    response_word(call_outcome(data, shape, engine) is Ok)
}

/// Holds a decoded proof against a decoded statement.
pub fn check_fit(shape: ProofShape, inputs: &LinearRegressionInputs) -> (r: Result<
    (),
    VerifyError,
>)
    ensures
        r is Ok <==> fits(shape, inputs.sample_x_values@, inputs.sample_y_values@),
        r is Err ==> r == Err::<(), VerifyError>(VerifyError::ConstraintViolation),
        r is Ok ==> LinearRegressionAir::constructible(shape.trace_width, *inputs),
{
    let num_samples: usize = inputs.sample_x_values.len();
    if shape.trace_width != 4 || shape.aux_width != 0 {
        return Err(VerifyError::ConstraintViolation);
    }
    if num_samples != inputs.sample_y_values.len() || num_samples > (usize::MAX - 2) / 2 {
        return Err(VerifyError::ConstraintViolation);
    }
    if num_samples >= shape.trace_length {
        return Err(VerifyError::ConstraintViolation);
    }
    Ok(())
}

/// Prepares a verification from what reading the proof bytes gave (`None`
/// where they hold no proof) and from the statement's bytes. On success the
/// statement is returned, ready for the engine.
pub fn prepare_verification(shape: Option<ProofShape>, inputs_bytes: &[u8]) -> (r: Result<
    LinearRegressionInputs,
    VerifyError,
>)
    ensures
        match r {
            Ok(inputs) => {
                &&& admission(shape, wire_fields(inputs_bytes@)) is Ok
                &&& LinearRegressionInputs::decodes_to(inputs_bytes@, inputs)
                &&& LinearRegressionAir::constructible(shape->Some_0.trace_width, inputs)
            },
            Err(e) => admission(shape, wire_fields(inputs_bytes@)) == Err::<(), VerifyError>(e),
        },
{
    let shape = match shape {
        Some(s) => s,
        None => {
            return Err(VerifyError::ProofDecode);
        },
    };
    let inputs = match LinearRegressionInputs::decode(inputs_bytes) {
        Ok(i) => i,
        Err(e) => {
            return Err(e);
        },
    };
    match check_fit(shape, &inputs) {
        Ok(_) => Ok(inputs),
        Err(e) => Err(e),
    }
}

/// Classifies what the engine found.
pub fn classify(engine: Result<(), EngineFailure>) -> (r: Result<(), VerifyError>)
    ensures
        r == match engine {
            Ok(_) => Ok::<(), VerifyError>(()),
            Err(f) => Err::<(), VerifyError>(failure_class(f)),
        },
{
    match engine {
        Ok(_) => Ok(()),
        Err(failure) => Err(
            match failure {
                EngineFailure::ProofDeserialization => VerifyError::ProofDecode,
                EngineFailure::InsufficientConjecturedSecurity => VerifyError::SecurityLevelTooLow,
                EngineFailure::InsufficientProvenSecurity => VerifyError::SecurityLevelTooLow,
                EngineFailure::UnacceptableProofOptions => VerifyError::SecurityLevelTooLow,
                _ => VerifyError::ConstraintViolation,
            },
        ),
    }
}

/// Encodes the outcome of a call: accept for success, the same reject word
/// for every failure.
pub fn respond(outcome: Result<(), VerifyError>) -> (r: [u8; 32])
    ensures
        r@ == response_word(outcome is Ok),
{
    encode_response(outcome.is_ok())
}

/// Malformed call data is answered with the reject word, whatever the proof
/// bytes hold and whatever an engine would find.
pub proof fn lemma_malformed_call_rejects(
    data: Seq<u8>,
    shape: Option<ProofShape>,
    engine: Result<(), EngineFailure>,
)
    requires
        !well_framed(data),
    ensures
        call_outcome(data, shape, engine) == Err::<(), VerifyError>(VerifyError::CallData),
        call_response(data, shape, engine) == response_word(false),
        call_response(data, shape, engine)[31] == 0,
{
}

/// Call data shorter than the header is malformed.
pub proof fn lemma_short_call_is_malformed(data: Seq<u8>)
    requires
        data.len() < 64,
    ensures
        !well_framed(data),
{
}

/// A statement with more or fewer sample outputs than sample inputs is
/// never admitted, whatever the proof, and no constraint system is built
/// from it.
pub proof fn lemma_unequal_samples_reject(
    shape: Option<ProofShape>,
    x_value: u128,
    predicted_y: u128,
    xs: Seq<u128>,
    ys: Seq<u128>,
)
    requires
        xs.len() != ys.len(),
    ensures
        admission(shape, Some((x_value, predicted_y, xs, ys))) is Err,
        forall|w: usize, inputs: LinearRegressionInputs|
            inputs.sample_x_values@ == xs && inputs.sample_y_values@ == ys
                ==> !#[trigger] LinearRegressionAir::constructible(w, inputs),
{
}

/// The response is a function of the call data, of what reading the proof
/// gave and of what the engine found: the same call is answered the same way.
pub proof fn lemma_same_call_same_response(
    first: Seq<u8>,
    second: Seq<u8>,
    shape: Option<ProofShape>,
    engine: Result<(), EngineFailure>,
)
    requires
        first == second,
    ensures
        call_response(first, shape, engine) == call_response(second, shape, engine),
{
}

/// Only a call that is well framed, admitted and found valid by the engine
/// is answered with accept.
pub proof fn lemma_accept_needs_every_step(
    data: Seq<u8>,
    shape: Option<ProofShape>,
    engine: Result<(), EngineFailure>,
)
    ensures
        call_response(data, shape, engine)[31] == 1 <==> {
            &&& well_framed(data)
            &&& admission(shape, wire_fields(inputs_part(data))) is Ok
            &&& engine is Ok
        },
        call_response(data, shape, engine)[31] == 0 || call_response(data, shape, engine)[31]
            == 1,
{
}

} // verus!
