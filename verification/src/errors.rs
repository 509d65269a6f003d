//! The reasons for which a call is rejected.

use vstd::prelude::*;

verus! {

/// Why a verification call ends in a reject. The response carries none of
/// this: every variant is answered with the same reject word.
#[derive(Clone, Copy, Debug, PartialEq, Eq, Structural)]
pub enum VerifyError {
    /// The call data is shorter than its header, or the lengths in the header
    /// run past the end of the call data.
    CallData,
    /// The public-input bytes do not decode to a statement.
    InputDecode,
    /// The proof bytes do not decode to a proof.
    ProofDecode,
    /// The statement and the proof do not fit the constraint system, or the
    /// engine found the proof algebraically invalid.
    ConstraintViolation,
    /// The proof's parameters give less security than is asked for.
    SecurityLevelTooLow,
}

} // verus!
