//! The framing of a call: a 64-byte header with two big-endian lengths,
//! followed by the proof bytes and the public-input bytes, and the 32-byte
//! word that answers it.

use vstd::prelude::*;
use vstd::slice::slice_subrange;
use crate::errors::VerifyError;

verus! {

/// Length of the header in bytes.
pub const HEADER_LEN: usize = 64;

/// Offset of the proof length within the header.
pub const PROOF_LEN_OFFSET: usize = 0;

/// Offset of the public-input length within the header.
pub const INPUTS_LEN_OFFSET: usize = 32;

/// The big-endian 32-bit number in the four bytes that start at `at`.
pub open spec fn be_u32(bytes: Seq<u8>, at: int) -> int {
    bytes[at] * 16777216 + bytes[at + 1] * 65536 + bytes[at + 2] * 256 + bytes[at + 3]
}

/// The proof length that the header declares.
pub open spec fn declared_proof_len(data: Seq<u8>) -> int {
    be_u32(data, 0)
}

/// The public-input length that the header declares.
pub open spec fn declared_inputs_len(data: Seq<u8>) -> int {
    be_u32(data, 32)
}

/// Call data is well framed when it holds a whole header and as many bytes
/// after it as the two declared lengths ask for.
pub open spec fn well_framed(data: Seq<u8>) -> bool {
    &&& data.len() >= 64
    &&& 64 + declared_proof_len(data) + declared_inputs_len(data) <= data.len()
}

/// The proof bytes of well-framed call data.
pub open spec fn proof_part(data: Seq<u8>) -> Seq<u8> {
    data.subrange(64, 64 + declared_proof_len(data))
}

/// The public-input bytes of well-framed call data.
pub open spec fn inputs_part(data: Seq<u8>) -> Seq<u8> {
    data.subrange(
        64 + declared_proof_len(data),
        64 + declared_proof_len(data) + declared_inputs_len(data),
    )
}

/// The response word: 31 zero bytes, then 1 for accept or 0 for reject.
pub open spec fn response_word(accept: bool) -> Seq<u8> {
    Seq::new(
        32,
        |i: int|
            if i == 31 && accept {
                1u8
            } else {
                0u8
            },
    )
}

/// The two byte strings that a call carries.
pub struct CallPayload<'a> {
    pub proof_bytes: &'a [u8],
    pub inputs_bytes: &'a [u8],
}

/// Reads the big-endian 32-bit number at `at`.
pub fn read_be_u32(bytes: &[u8], at: usize) -> (r: u64)
    requires
        at + 4 <= bytes@.len(),
    ensures
        r == be_u32(bytes@, at as int),
        r <= u32::MAX,
{
    let b0: u64 = bytes[at] as u64;
    let b1: u64 = bytes[at + 1] as u64;
    let b2: u64 = bytes[at + 2] as u64;
    let b3: u64 = bytes[at + 3] as u64;
    b0 * 16777216 + b1 * 65536 + b2 * 256 + b3
}

/// Splits call data into proof bytes and public-input bytes. The header
/// bytes outside the two length fields, and any bytes after the public
/// inputs, are not looked at.
pub fn decode_call_data<'a>(data: &'a [u8]) -> (r: Result<CallPayload<'a>, VerifyError>)
    ensures
        r is Ok <==> well_framed(data@),
        r is Err ==> r == Err::<CallPayload<'a>, VerifyError>(VerifyError::CallData),
        r is Ok ==> r->Ok_0.proof_bytes@ == proof_part(data@) && r->Ok_0.inputs_bytes@
            == inputs_part(data@),
{
    if data.len() < HEADER_LEN {
        return Err(VerifyError::CallData);
    }
    let proof_len: u64 = read_be_u32(data, PROOF_LEN_OFFSET);
    let inputs_len: u64 = read_be_u32(data, INPUTS_LEN_OFFSET);
    let available: u64 = (data.len() - HEADER_LEN) as u64;
    if proof_len + inputs_len > available {
        return Err(VerifyError::CallData);
    }
    let proof_end: usize = HEADER_LEN + proof_len as usize;
    let inputs_end: usize = proof_end + inputs_len as usize;
    Ok(
        CallPayload {
            proof_bytes: slice_subrange(data, HEADER_LEN, proof_end),
            inputs_bytes: slice_subrange(data, proof_end, inputs_end),
        },
    )
}

/// Encodes the answer of a call.
pub fn encode_response(accept: bool) -> (r: [u8; 32])
    ensures
        r@ == response_word(accept),
{
    let mut output: [u8; 32] = [0u8; 32];
    if accept {
        output[31] = 1u8;
    }
    assert(output@ =~= response_word(accept));
    output
}

} // verus!
