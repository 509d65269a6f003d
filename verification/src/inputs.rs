//! The public statement of a proof: the point whose prediction is claimed and
//! the samples that the fit is bound to.
//!
//! On the wire the statement is bincode's fixed-width little-endian form of
//! the four fields in order: two 16-byte integers, then twice a 64-bit length
//! followed by that many 16-byte integers. Nothing may follow the last field.
//! The bytes are read by bincode; which values are a statement is decided
//! here.

use vstd::prelude::*;
use bincode::Options;
use crate::errors::VerifyError;
use crate::field::{all_canonical, check_all_canonical, is_canonical, MODULUS};

verus! {

/// The public inputs of one verification call. Every value is a field
/// element in canonical form.
#[derive(Clone, Debug)]
pub struct LinearRegressionInputs {
    pub x_value: u128,
    pub predicted_y: u128,
    pub sample_x_values: Vec<u128>,
    pub sample_y_values: Vec<u128>,
}

/// The number that a byte string holds in little-endian order.
pub open spec fn le_value(bytes: Seq<u8>) -> nat
    decreases bytes.len(),
{
    if bytes.len() == 0 {
        0
    } else {
        bytes[0] as nat + 256 * le_value(bytes.drop_first())
    }
}

/// The little-endian number in the `width` bytes that start at `at`.
pub open spec fn le_at(bytes: Seq<u8>, at: int, width: int) -> nat {
    le_value(bytes.subrange(at, at + width))
}

/// The four fields that a byte string is the wire form of, or `None` where
/// it is the wire form of none: the point and its prediction in 16 bytes
/// each, a 64-bit count and that many 16-byte sample inputs, a 64-bit count
/// and that many 16-byte sample outputs, and nothing after them.
pub open spec fn wire_fields(bytes: Seq<u8>) -> Option<(u128, u128, Seq<u128>, Seq<u128>)> {
    if bytes.len() < 40 {
        None
    } else {
        let n = le_at(bytes, 32, 8) as int;
        if bytes.len() < 48 + 16 * n {
            None
        } else {
            let m = le_at(bytes, 40 + 16 * n, 8) as int;
            if bytes.len() != 48 + 16 * n + 16 * m {
                None
            } else {
                Some(
                    (
                        le_at(bytes, 0, 16) as u128,
                        le_at(bytes, 16, 16) as u128,
                        Seq::new(n as nat, |i: int| le_at(bytes, 40 + 16 * i, 16) as u128),
                        Seq::new(
                            m as nat,
                            |i: int| le_at(bytes, 48 + 16 * n + 16 * i, 16) as u128,
                        ),
                    ),
                )
            }
        }
    }
}

/// Reads the four fields of a statement from their wire form.
///
/// Trusted: calls `bincode::Options::deserialize` for a tuple of two `u128`
/// and two `Vec<u128>`, on bincode's default options with fixed-width
/// integers: little-endian order, a 64-bit length before each sequence,
/// trailing bytes rejected. The contract claims that the call gives the
/// fields of which the bytes are the wire form, and nothing where they are
/// the wire form of none.
#[verifier::external_body]
fn read_fields(bytes: &[u8]) -> (r: Option<(u128, u128, Vec<u128>, Vec<u128>)>)
    ensures
        match r {
            Some(f) => wire_fields(bytes@) == Some((f.0, f.1, f.2@, f.3@)),
            None => wire_fields(bytes@) is None,
        },
{
    bincode::DefaultOptions::new().with_fixint_encoding().deserialize(bytes).ok()
}

/// All four fields of a statement hold canonical values.
pub open spec fn fields_canonical(
    x_value: u128,
    predicted_y: u128,
    xs: Seq<u128>,
    ys: Seq<u128>,
) -> bool {
    &&& is_canonical(x_value)
    &&& is_canonical(predicted_y)
    &&& all_canonical(xs)
    &&& all_canonical(ys)
}

impl LinearRegressionInputs {
    /// All values are canonical field elements.
    pub open spec fn wf(&self) -> bool {
        fields_canonical(
            self.x_value,
            self.predicted_y,
            self.sample_x_values@,
            self.sample_y_values@,
        )
    }

    /// The statement as one sequence of field elements: the point, its
    /// prediction, the sample inputs, the sample outputs.
    pub open spec fn elements(&self) -> Seq<u128> {
        seq![self.x_value, self.predicted_y] + self.sample_x_values@ + self.sample_y_values@
    }

    /// The field elements that bind a proof to this statement.
    pub fn to_elements(&self) -> (r: Vec<u128>)
        ensures
            r@ == self.elements(),
    {
        let mut elements: Vec<u128> = Vec::new();
        elements.push(self.x_value);
        elements.push(self.predicted_y);
        let mut i: usize = 0;
        while i < self.sample_x_values.len()
            invariant
                i <= self.sample_x_values.len(),
                elements@ == seq![self.x_value, self.predicted_y]
                    + self.sample_x_values@.subrange(0, i as int),
            decreases self.sample_x_values.len() - i,
        {
            elements.push(self.sample_x_values[i]);
            i += 1;
            assert(elements@ =~= seq![self.x_value, self.predicted_y]
                + self.sample_x_values@.subrange(0, i as int));
        }
        assert(self.sample_x_values@.subrange(0, i as int) =~= self.sample_x_values@);
        let mut j: usize = 0;
        while j < self.sample_y_values.len()
            invariant
                j <= self.sample_y_values.len(),
                elements@ == seq![self.x_value, self.predicted_y] + self.sample_x_values@
                    + self.sample_y_values@.subrange(0, j as int),
            decreases self.sample_y_values.len() - j,
        {
            elements.push(self.sample_y_values[j]);
            j += 1;
            assert(elements@ =~= seq![self.x_value, self.predicted_y] + self.sample_x_values@
                + self.sample_y_values@.subrange(0, j as int));
        }
        assert(self.sample_y_values@.subrange(0, j as int) =~= self.sample_y_values@);
        elements
    }

    /// Builds a statement from four decoded fields. A value at or above the
    /// field modulus is outside the canonical range and is refused.
    pub fn from_fields(
        x_value: u128,
        predicted_y: u128,
        sample_x_values: Vec<u128>,
        sample_y_values: Vec<u128>,
    ) -> (r: Result<Self, VerifyError>)
        ensures
            r is Ok <==> fields_canonical(x_value, predicted_y, sample_x_values@, sample_y_values@),
            r is Err ==> r == Err::<Self, VerifyError>(VerifyError::InputDecode),
            r is Ok ==> {
                &&& r->Ok_0.wf()
                &&& r->Ok_0.x_value == x_value
                &&& r->Ok_0.predicted_y == predicted_y
                &&& r->Ok_0.sample_x_values@ == sample_x_values@
                &&& r->Ok_0.sample_y_values@ == sample_y_values@
            },
    {
        if x_value >= MODULUS || predicted_y >= MODULUS {
            return Err(VerifyError::InputDecode);
        }
        if !check_all_canonical(sample_x_values.as_slice()) {
            return Err(VerifyError::InputDecode);
        }
        if !check_all_canonical(sample_y_values.as_slice()) {
            return Err(VerifyError::InputDecode);
        }
        Ok(LinearRegressionInputs { x_value, predicted_y, sample_x_values, sample_y_values })
    }

    /// What decoding a byte string gives: the fields of which it is the wire
    /// form, all of them canonical.
    pub open spec fn decodes_to(bytes: Seq<u8>, inputs: Self) -> bool {
        &&& inputs.wf()
        &&& wire_fields(bytes) == Some(
            (
                inputs.x_value,
                inputs.predicted_y,
                inputs.sample_x_values@,
                inputs.sample_y_values@,
            ),
        )
    }

    /// A byte string decodes when it is the wire form of four fields and all
    /// their values are canonical.
    pub open spec fn decodable(bytes: Seq<u8>) -> bool {
        match wire_fields(bytes) {
            Some(f) => fields_canonical(f.0, f.1, f.2, f.3),
            None => false,
        }
    }

    /// Decodes a statement from its wire form. Truncated input, trailing
    /// bytes and wrong length prefixes are refused by the reader, values
    /// outside the canonical range by [`Self::from_fields`].
    pub fn decode(bytes: &[u8]) -> (r: Result<Self, VerifyError>)
        ensures
            r is Ok <==> Self::decodable(bytes@),
            r is Ok ==> Self::decodes_to(bytes@, r->Ok_0),
            r is Err ==> r == Err::<Self, VerifyError>(VerifyError::InputDecode),
    {
        match read_fields(bytes) {
            Some(fields) => Self::from_fields(fields.0, fields.1, fields.2, fields.3),
            None => Err(VerifyError::InputDecode),
        }
    }
}

/// A wire form with bytes added at its end is the wire form of nothing.
pub proof fn lemma_trailing_bytes_are_refused(bytes: Seq<u8>, extra: Seq<u8>)
    requires
        wire_fields(bytes) is Some,
        extra.len() > 0,
    ensures
        wire_fields(bytes + extra) is None,
        !LinearRegressionInputs::decodable(bytes + extra),
{
    let longer = bytes + extra;
    let n = le_at(bytes, 32, 8) as int;
    assert(longer.subrange(32, 40) =~= bytes.subrange(32, 40));
    assert(longer.subrange(40 + 16 * n, 48 + 16 * n) =~= bytes.subrange(
        40 + 16 * n,
        48 + 16 * n,
    ));
}

/// A wire form cut short is the wire form of nothing.
pub proof fn lemma_truncation_is_refused(bytes: Seq<u8>, kept: int)
    requires
        wire_fields(bytes) is Some,
        0 <= kept < bytes.len(),
    ensures
        wire_fields(bytes.subrange(0, kept)) is None,
        !LinearRegressionInputs::decodable(bytes.subrange(0, kept)),
{
    let shorter = bytes.subrange(0, kept);
    let n = le_at(bytes, 32, 8) as int;
    if kept >= 40 {
        assert(shorter.subrange(32, 40) =~= bytes.subrange(32, 40));
        if kept >= 48 + 16 * n {
            assert(shorter.subrange(40 + 16 * n, 48 + 16 * n) =~= bytes.subrange(
                40 + 16 * n,
                48 + 16 * n,
            ));
        }
    }
}

} // verus!
