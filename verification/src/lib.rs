//! Verifier-side logic for a STARK that attests a linear-regression prediction:
//! the call-data framing, the public-input codec, the constraint system over
//! the 128-bit prime field, and the classification of outcomes into a
//! 32-byte accept/reject response.

pub mod errors;
pub mod field;
pub mod inputs;
pub mod air;
pub mod calldata;
pub mod entry;
