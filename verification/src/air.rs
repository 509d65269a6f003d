//! The constraint system of the linear fit.
//!
//! A trace has four columns: slope, intercept, x and y. Row `i` below the
//! number of samples holds sample `i`; the row after the samples holds the
//! point whose prediction is claimed. Three transition constraints tie each
//! row to its successor, and boundary assertions pin the x and y cells.

use vstd::prelude::*;
use vstd::arithmetic::div_mod::*;
use crate::errors::VerifyError;
use crate::field::{all_canonical, field_mul, field_sub, is_canonical, modulus, mul_mod, sub_mod};
use crate::inputs::LinearRegressionInputs;

verus! {

/// Number of columns of a trace.
pub const TRACE_WIDTH: usize = 4;

/// Column of the slope.
pub const COL_SLOPE: usize = 0;

/// Column of the intercept.
pub const COL_INTERCEPT: usize = 1;

/// Column of the input x.
pub const COL_X: usize = 2;

/// Column of the output y.
pub const COL_Y: usize = 3;

/// Number of transition constraints.
pub const NUM_CONSTRAINTS: usize = 3;

/// A boundary assertion: the cell at `column` and `step` holds `value`.
#[derive(Clone, Copy, Debug, PartialEq, Eq, Structural)]
pub struct Assertion {
    pub column: usize,
    pub step: usize,
    pub value: u128,
}

/// A row is four canonical field elements.
pub open spec fn is_row(row: Seq<u128>) -> bool {
    row.len() == 4 && all_canonical(row)
}

/// The first constraint at a row: y - slope * x - intercept.
pub open spec fn fit_residual(row: Seq<u128>) -> int {
    sub_mod(sub_mod(row[3] as int, mul_mod(row[0] as int, row[2] as int)), row[1] as int)
}

/// The second constraint between two rows: the change of the slope.
pub open spec fn slope_drift(current: Seq<u128>, next: Seq<u128>) -> int {
    sub_mod(next[0] as int, current[0] as int)
}

/// The third constraint between two rows: the change of the intercept.
pub open spec fn intercept_drift(current: Seq<u128>, next: Seq<u128>) -> int {
    sub_mod(next[1] as int, current[1] as int)
}

/// The degrees of the three transition constraints, in their order.
pub open spec fn constraint_degrees() -> Seq<usize> {
    seq![2usize, 1usize, 1usize]
}

/// The assertion at position `k` of the list: the samples' x and y cells in
/// turn, row by row, then the x and y cells of the predicted point.
pub open spec fn assertion_at(
    xs: Seq<u128>,
    ys: Seq<u128>,
    x_value: u128,
    predicted_y: u128,
    k: int,
) -> Assertion {
    if k < 2 * xs.len() {
        if k % 2 == 0 {
            Assertion { column: 2, step: (k / 2) as usize, value: xs[k / 2] }
        } else {
            Assertion { column: 3, step: (k / 2) as usize, value: ys[k / 2] }
        }
    } else if k == 2 * xs.len() {
        Assertion { column: 2, step: xs.len() as usize, value: x_value }
    } else {
        Assertion { column: 3, step: xs.len() as usize, value: predicted_y }
    }
}

/// The first `len` assertions of the list.
pub open spec fn assertions_prefix(
    xs: Seq<u128>,
    ys: Seq<u128>,
    x_value: u128,
    predicted_y: u128,
    len: int,
) -> Seq<Assertion> {
    Seq::new(len as nat, |k: int| assertion_at(xs, ys, x_value, predicted_y, k))
}

/// The constraint system of one verification call.
pub struct LinearRegressionAir {
    degrees: Vec<usize>,
    num_assertions: usize,
    x_value: u128,
    predicted_y: u128,
    sample_x_values: Vec<u128>,
    sample_y_values: Vec<u128>,
    num_samples: usize,
}

impl LinearRegressionAir {
    /// The point whose prediction is claimed.
    pub closed spec fn x_value(&self) -> u128 {
        self.x_value
    }

    /// The claimed prediction.
    pub closed spec fn predicted_y(&self) -> u128 {
        self.predicted_y
    }

    /// The sample inputs.
    pub closed spec fn sample_xs(&self) -> Seq<u128> {
        self.sample_x_values@
    }

    /// The sample outputs.
    pub closed spec fn sample_ys(&self) -> Seq<u128> {
        self.sample_y_values@
    }

    /// The declared degrees of the transition constraints.
    pub closed spec fn degrees(&self) -> Seq<usize> {
        self.degrees@
    }

    /// The declared number of boundary assertions.
    pub closed spec fn declared_assertions(&self) -> int {
        self.num_assertions as int
    }

    /// The number of samples.
    pub open spec fn samples(&self) -> int {
        self.sample_xs().len() as int
    }

    /// The invariant of a constraint system: as many sample outputs as sample
    /// inputs, canonical values, the degrees 2, 1, 1 and two assertions for
    /// every row.
    pub closed spec fn wf(&self) -> bool {
        &&& self.num_samples == self.sample_x_values@.len()
        &&& self.sample_y_values@.len() == self.sample_x_values@.len()
        &&& self.num_assertions == 2 * self.num_samples + 2
        &&& self.degrees@ == constraint_degrees()
        &&& self.x_value < crate::field::MODULUS
        &&& self.predicted_y < crate::field::MODULUS
        &&& all_canonical(self.sample_x_values@)
        &&& all_canonical(self.sample_y_values@)
    }

    /// The whole list of boundary assertions.
    pub open spec fn assertions(&self) -> Seq<Assertion> {
        assertions_prefix(
            self.sample_xs(),
            self.sample_ys(),
            self.x_value(),
            self.predicted_y(),
            2 * self.samples() + 2,
        )
    }

    /// The inputs from which a constraint system can be built: a trace of
    /// four columns, and as many sample outputs as sample inputs (few enough
    /// for the number of assertions to be counted).
    pub open spec fn constructible(trace_width: usize, pub_inputs: LinearRegressionInputs) -> bool {
        &&& trace_width == 4
        &&& pub_inputs.sample_x_values@.len() == pub_inputs.sample_y_values@.len()
        &&& 2 * pub_inputs.sample_x_values@.len() + 2 <= usize::MAX
    }

    /// Builds the constraint system for a trace of `trace_width` columns and
    /// the given statement.
    pub fn new(trace_width: usize, pub_inputs: LinearRegressionInputs) -> (r: Result<
        Self,
        VerifyError,
    >)
        requires
            pub_inputs.wf(),
        ensures
            r is Ok <==> Self::constructible(trace_width, pub_inputs),
            r is Err ==> r == Err::<Self, VerifyError>(VerifyError::ConstraintViolation),
            r is Ok ==> {
                let air = r->Ok_0;
                &&& air.wf()
                &&& air.x_value() == pub_inputs.x_value
                &&& air.predicted_y() == pub_inputs.predicted_y
                &&& air.sample_xs() == pub_inputs.sample_x_values@
                &&& air.sample_ys() == pub_inputs.sample_y_values@
                &&& air.degrees() == constraint_degrees()
                &&& air.declared_assertions() == 2 * pub_inputs.sample_x_values@.len() + 2
            },
    {
        if trace_width != TRACE_WIDTH {
            return Err(VerifyError::ConstraintViolation);
        }
        let num_samples: usize = pub_inputs.sample_x_values.len();
        if num_samples != pub_inputs.sample_y_values.len() {
            return Err(VerifyError::ConstraintViolation);
        }
        if num_samples > (usize::MAX - 2) / 2 {
            return Err(VerifyError::ConstraintViolation);
        }
        let mut degrees: Vec<usize> = Vec::new();
        degrees.push(2);
        degrees.push(1);
        degrees.push(1);
        assert(degrees@ =~= constraint_degrees());
        let num_assertions: usize = 2 * num_samples + 2;
        Ok(
            LinearRegressionAir {
                degrees,
                num_assertions,
                x_value: pub_inputs.x_value,
                predicted_y: pub_inputs.predicted_y,
                sample_x_values: pub_inputs.sample_x_values,
                sample_y_values: pub_inputs.sample_y_values,
                num_samples,
            },
        )
    }

    /// Evaluates the three transition constraints between a row and its
    /// successor into the first three places of `result`.
    pub fn evaluate_transition(&self, current: &[u128], next: &[u128], result: &mut Vec<u128>)
        requires
            is_row(current@),
            is_row(next@),
            old(result)@.len() >= NUM_CONSTRAINTS,
        ensures
            final(result)@.len() == old(result)@.len(),
            final(result)@[0] == fit_residual(current@),
            final(result)@[1] == slope_drift(current@, next@),
            final(result)@[2] == intercept_drift(current@, next@),
            forall|k: int|
                NUM_CONSTRAINTS <= k < old(result)@.len() ==> final(result)@[k] == old(result)@[k],
    {
        let slope: u128 = current[COL_SLOPE];
        let intercept: u128 = current[COL_INTERCEPT];
        let x: u128 = current[COL_X];
        let y: u128 = current[COL_Y];
        let next_slope: u128 = next[COL_SLOPE];
        let next_intercept: u128 = next[COL_INTERCEPT];
        result.set(0, field_sub(field_sub(y, field_mul(slope, x)), intercept));
        result.set(1, field_sub(next_slope, slope));
        result.set(2, field_sub(next_intercept, intercept));
    }

    /// The boundary assertions, in the order that binds a proof: for each
    /// sample row its x cell and its y cell, then those of the predicted
    /// point.
    pub fn get_assertions(&self) -> (r: Vec<Assertion>)
        requires
            self.wf(),
        ensures
            r@ == self.assertions(),
            r@.len() == self.declared_assertions(),
    {
        let mut assertions: Vec<Assertion> = Vec::new();
        let mut i: usize = 0;
        while i < self.num_samples
            invariant
                self.wf(),
                i <= self.num_samples,
                assertions@ == assertions_prefix(
                    self.sample_xs(),
                    self.sample_ys(),
                    self.x_value(),
                    self.predicted_y(),
                    2 * i,
                ),
            decreases self.num_samples - i,
        {
            assertions.push(Assertion { column: COL_X, step: i, value: self.sample_x_values[i] });
            assertions.push(Assertion { column: COL_Y, step: i, value: self.sample_y_values[i] });
            i += 1;
            assert(assertions@ =~= assertions_prefix(
                self.sample_xs(),
                self.sample_ys(),
                self.x_value(),
                self.predicted_y(),
                2 * i,
            ));
        }
        let prediction_step: usize = self.num_samples;
        assertions.push(Assertion { column: COL_X, step: prediction_step, value: self.x_value });
        assertions.push(
            Assertion { column: COL_Y, step: prediction_step, value: self.predicted_y },
        );
        assert(assertions@ =~= self.assertions());
        assertions
    }

    /// The declared degrees of the transition constraints.
    pub fn constraint_degrees(&self) -> (r: &Vec<usize>)
        ensures
            r@ == self.degrees(),
    {
        &self.degrees
    }

    /// The declared number of boundary assertions.
    pub fn num_assertions(&self) -> (r: usize)
        ensures
            r == self.declared_assertions(),
    {
        self.num_assertions
    }
}

/// A trace is a sequence of rows.
pub open spec fn is_trace(trace: Seq<Seq<u128>>) -> bool {
    forall|i: int| 0 <= i < trace.len() ==> is_row(#[trigger] trace[i])
}

/// The three transition constraints evaluate to zero between every row and
/// its successor.
pub open spec fn transitions_hold(trace: Seq<Seq<u128>>) -> bool {
    forall|i: int|
        0 <= i < trace.len() - 1 ==> {
            &&& fit_residual(#[trigger] trace[i]) == 0
            &&& slope_drift(trace[i], trace[i + 1]) == 0
            &&& intercept_drift(trace[i], trace[i + 1]) == 0
        }
}

/// The trace holds the asserted value in the asserted cell.
pub open spec fn cell_holds(trace: Seq<Seq<u128>>, a: Assertion) -> bool {
    &&& a.step < trace.len()
    &&& a.column < 4
    &&& trace[a.step as int][a.column as int] == a.value
}

/// The trace meets every assertion of the list.
pub open spec fn assertions_hold(trace: Seq<Seq<u128>>, list: Seq<Assertion>) -> bool {
    forall|k: int| 0 <= k < list.len() ==> cell_holds(trace, #[trigger] list[k])
}

/// The value of the line with the given slope and intercept at `x`.
pub open spec fn line_at(slope: u128, intercept: u128, x: u128) -> int {
    (slope * x + intercept) % modulus()
}

/// The trace that a fit with the given slope and intercept leaves for a
/// statement: a row for each sample, then one for the predicted point, then
/// any number of further rows; the same slope and intercept in every row, and
/// y on the line in every row.
pub open spec fn is_fit_trace(
    trace: Seq<Seq<u128>>,
    slope: u128,
    intercept: u128,
    xs: Seq<u128>,
    ys: Seq<u128>,
    x_value: u128,
    predicted_y: u128,
) -> bool {
    &&& is_trace(trace)
    &&& xs.len() == ys.len()
    &&& trace.len() >= xs.len() + 1
    &&& forall|i: int|
        0 <= i < trace.len() ==> {
            &&& (#[trigger] trace[i])[0] == slope
            &&& trace[i][1] == intercept
            &&& trace[i][3] == line_at(slope, intercept, trace[i][2])
        }
    &&& forall|i: int|
        0 <= i < xs.len() ==> (#[trigger] trace[i])[2] == xs[i] && trace[i][3] == ys[i]
    &&& trace[xs.len() as int][2] == x_value
    &&& trace[xs.len() as int][3] == predicted_y
}

/// The first constraint vanishes at a row exactly when the row's y lies on
/// the line that its slope and intercept give.
pub proof fn lemma_residual_zero_iff_on_line(row: Seq<u128>)
    requires
        is_row(row),
    ensures
        fit_residual(row) == 0 <==> row[3] == line_at(row[0], row[1], row[2]),
{
    let m = modulus();
    let y = row[3] as int;
    let s = row[0] as int;
    let x = row[2] as int;
    let b = row[1] as int;
    assert(is_canonical(row[3]) && is_canonical(row[1]));
    lemma_sub_mod_noop_right(y, s * x, m);
    lemma_sub_mod_noop(y - s * x, b, m);
    lemma_small_mod(b as nat, m as nat);
    lemma_small_mod(y as nat, m as nat);
    assert(fit_residual(row) == (y - s * x - b) % m);
    lemma_mod_equivalence(y, s * x + b, m);
    assert(y - (s * x + b) == y - s * x - b);
}

/// The difference of two canonical values vanishes exactly when they are
/// equal.
pub proof fn lemma_drift_zero_iff_equal(a: u128, b: u128)
    requires
        is_canonical(a),
        is_canonical(b),
    ensures
        sub_mod(a as int, b as int) == 0 <==> a == b,
{
    let m = modulus();
    lemma_mod_equivalence(a as int, b as int, m);
    lemma_small_mod(a as nat, m as nat);
    lemma_small_mod(b as nat, m as nat);
}

/// In a trace on which the transition constraints hold, every row has the
/// slope and the intercept of the first.
pub proof fn lemma_constant_line(trace: Seq<Seq<u128>>, i: int)
    requires
        is_trace(trace),
        transitions_hold(trace),
        0 <= i < trace.len(),
    ensures
        trace[i][0] == trace[0][0],
        trace[i][1] == trace[0][1],
    decreases i,
{
    if i > 0 {
        lemma_constant_line(trace, i - 1);
        let current = trace[i - 1];
        let next = trace[i];
        assert(is_row(current) && is_row(next));
        assert(slope_drift(current, trace[i - 1 + 1]) == 0);
        assert(intercept_drift(current, trace[i - 1 + 1]) == 0);
        assert(is_canonical(next[0]) && is_canonical(current[0]));
        assert(is_canonical(next[1]) && is_canonical(current[1]));
        lemma_drift_zero_iff_equal(next[0], current[0]);
        lemma_drift_zero_iff_equal(next[1], current[1]);
    }
}

/// Completeness of the constraint system: the trace that a fit leaves for the
/// statement meets every transition constraint and every boundary assertion.
pub proof fn lemma_fit_trace_satisfies_air(
    air: LinearRegressionAir,
    trace: Seq<Seq<u128>>,
    slope: u128,
    intercept: u128,
)
    requires
        air.wf(),
        is_fit_trace(
            trace,
            slope,
            intercept,
            air.sample_xs(),
            air.sample_ys(),
            air.x_value(),
            air.predicted_y(),
        ),
    ensures
        transitions_hold(trace),
        assertions_hold(trace, air.assertions()),
{
    assert forall|i: int| 0 <= i < trace.len() - 1 implies {
        &&& fit_residual(#[trigger] trace[i]) == 0
        &&& slope_drift(trace[i], trace[i + 1]) == 0
        &&& intercept_drift(trace[i], trace[i + 1]) == 0
    } by {
        let current = trace[i];
        let next = trace[i + 1];
        assert(is_row(current) && is_row(next));
        assert(is_canonical(next[0]) && is_canonical(current[0]));
        assert(is_canonical(next[1]) && is_canonical(current[1]));
        lemma_residual_zero_iff_on_line(current);
        lemma_drift_zero_iff_equal(next[0], current[0]);
        lemma_drift_zero_iff_equal(next[1], current[1]);
    }
    let list = air.assertions();
    let n = air.samples();
    assert forall|k: int| 0 <= k < list.len() implies cell_holds(trace, #[trigger] list[k]) by {
        if k < 2 * n {
            let row = trace[k / 2];
            assert(row[2] == air.sample_xs()[k / 2] && row[3] == air.sample_ys()[k / 2]);
        }
    }
}

/// Soundness of the constraint system: where a trace in which the predicted
/// point's row has a successor meets every transition constraint and every
/// boundary assertion, the claimed prediction and every sample output lie on
/// the line of the slope and intercept in the first row.
pub proof fn lemma_satisfying_trace_fixes_prediction(
    air: LinearRegressionAir,
    trace: Seq<Seq<u128>>,
)
    requires
        air.wf(),
        is_trace(trace),
        trace.len() > air.samples() + 1,
        transitions_hold(trace),
        assertions_hold(trace, air.assertions()),
    ensures
        air.predicted_y() == line_at(trace[0][0], trace[0][1], air.x_value()),
        forall|i: int|
            0 <= i < air.samples() ==> (#[trigger] air.sample_ys()[i]) == line_at(
                trace[0][0],
                trace[0][1],
                air.sample_xs()[i],
            ),
{
    let list = air.assertions();
    let n = air.samples();
    assert(cell_holds(trace, list[2 * n]));
    assert(cell_holds(trace, list[2 * n + 1]));
    let last = trace[n];
    assert(is_row(last));
    assert(fit_residual(last) == 0);
    lemma_residual_zero_iff_on_line(last);
    lemma_constant_line(trace, n);
    assert forall|i: int| 0 <= i < n implies (#[trigger] air.sample_ys()[i]) == line_at(
        trace[0][0],
        trace[0][1],
        air.sample_xs()[i],
    ) by {
        assert(cell_holds(trace, list[2 * i]));
        assert(cell_holds(trace, list[2 * i + 1]));
        let row = trace[i];
        assert(is_row(row));
        assert(fit_residual(row) == 0);
        lemma_residual_zero_iff_on_line(row);
        lemma_constant_line(trace, i);
    }
}

/// A wrong prediction cannot be proved: where the claimed prediction is off
/// the line of a trace's slope and intercept, that trace fails a transition
/// constraint or a boundary assertion.
pub proof fn lemma_wrong_prediction_has_no_trace(air: LinearRegressionAir, trace: Seq<Seq<u128>>)
    requires
        air.wf(),
        is_trace(trace),
        trace.len() > air.samples() + 1,
        air.predicted_y() != line_at(trace[0][0], trace[0][1], air.x_value()),
    ensures
        !(transitions_hold(trace) && assertions_hold(trace, air.assertions())),
{
    if transitions_hold(trace) && assertions_hold(trace, air.assertions()) {
        lemma_satisfying_trace_fixes_prediction(air, trace);
    }
}

} // verus!
