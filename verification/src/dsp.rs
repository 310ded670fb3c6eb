//! Fixed-point second-order IIR (biquad) section.
//!
//! Coefficients are held in signed Q2.30 form: the value `COEFF_SCALE`
//! stands for 1.0. The difference equation adds the feedback terms, so a
//! caller deriving a textbook low-pass must negate `a1` and `a2` relative to
//! the usual sign convention before scaling:
//! `y[n] = (b0*x[n] + b1*x[n-1] + b2*x[n-2] + a1*y[n-1] + a2*y[n-2]) / COEFF_SCALE`,
//! rounded toward negative infinity and clamped to `[-SAMPLE_LIMIT, SAMPLE_LIMIT]`.

use vstd::prelude::*;
use vstd::arithmetic::div_mod::lemma_div_multiples_vanish;
use crate::numeric::floor_div_i128;
use std::io::Write;

verus! {

/// Fixed-point value of the coefficient 1.0 (two to the thirtieth power).
pub const COEFF_SCALE: i64 = 1073741824;

/// Largest coefficient magnitude accepted: 4.0 in fixed-point form, which
/// covers every stable biquad (feedback coefficients stay below 2.0).
pub const COEFF_LIMIT: i64 = 4294967296;

/// Largest sample magnitude the filter accepts and produces.
pub const SAMPLE_LIMIT: i64 = 4294967296;

/// A sample value the filter can take as input or hold in its delay line.
pub open spec fn sample_ok(v: int) -> bool {
    -SAMPLE_LIMIT <= v <= SAMPLE_LIMIT
}

/// Saturation of an output value to the sample range.
pub open spec fn clamp_sample(v: int) -> int {
    if v > SAMPLE_LIMIT {
        SAMPLE_LIMIT as int
    } else if v < -SAMPLE_LIMIT {
        -SAMPLE_LIMIT as int
    } else {
        v
    }
}

/// Rejection of a pre-allocated output whose length differs from the input.
#[derive(Clone, Copy, Debug, PartialEq, Eq, Structural)]
pub struct ShapeMismatchError {
    pub input_len: usize,
    pub output_len: usize,
}

/// One direct-form biquad section: five coefficients, set once, and a
/// four-sample delay line, mutated on every processed sample.
#[derive(Clone, Copy, Debug, PartialEq, Eq, Structural)]
pub struct Biquad {
    pub b0: i64,
    pub b1: i64,
    pub b2: i64,
    pub a1: i64,
    pub a2: i64,

    pub x1: i64,
    pub x2: i64,
    pub y1: i64,
    pub y2: i64,
}

impl Default for Biquad {
    /// All-zero coefficients and a cleared delay line.
    fn default() -> (r: Self)
        ensures
            r == (Biquad { b0: 0, b1: 0, b2: 0, a1: 0, a2: 0, x1: 0, x2: 0, y1: 0, y2: 0 }),
    {
        Biquad { b0: 0, b1: 0, b2: 0, a1: 0, a2: 0, x1: 0, x2: 0, y1: 0, y2: 0 }
    }
}

impl Biquad {
    /// The coefficients are within the accepted fixed-point range.
    pub open spec fn coeffs_wf(self) -> bool {
        &&& -COEFF_LIMIT <= self.b0 <= COEFF_LIMIT
        &&& -COEFF_LIMIT <= self.b1 <= COEFF_LIMIT
        &&& -COEFF_LIMIT <= self.b2 <= COEFF_LIMIT
        &&& -COEFF_LIMIT <= self.a1 <= COEFF_LIMIT
        &&& -COEFF_LIMIT <= self.a2 <= COEFF_LIMIT
    }

    /// The delay line holds values in the sample range.
    pub open spec fn state_wf(self) -> bool {
        &&& sample_ok(self.x1 as int)
        &&& sample_ok(self.x2 as int)
        &&& sample_ok(self.y1 as int)
        &&& sample_ok(self.y2 as int)
    }

    pub open spec fn wf(self) -> bool {
        self.coeffs_wf() && self.state_wf()
    }

    /// Unscaled accumulator of the difference equation at input `x`.
    pub open spec fn spec_acc(self, x: int) -> int {
        self.b0 * x + self.b1 * self.x1 + self.b2 * self.x2
            + self.a1 * self.y1 + self.a2 * self.y2
    }

    /// Output sample for input `x` in the current state.
    pub open spec fn spec_output(self, x: int) -> int {
        clamp_sample(self.spec_acc(x) / COEFF_SCALE as int)
    }

    /// State after processing one input sample: the delay line shifts, the
    /// coefficients stay.
    pub open spec fn spec_advance(self, x: i64) -> Biquad {
        Biquad {
            b0: self.b0,
            b1: self.b1,
            b2: self.b2,
            a1: self.a1,
            a2: self.a2,
            x1: x,
            x2: self.x1,
            y1: self.spec_output(x as int) as i64,
            y2: self.y1,
        }
    }

    /// State after processing the first `n` samples of `xs`.
    pub open spec fn spec_after(self, xs: Seq<i64>, n: int) -> Biquad
        decreases n,
    {
        if n <= 0 {
            self
        } else {
            self.spec_after(xs, n - 1).spec_advance(xs[n - 1])
        }
    }

    /// The `i`-th output sample when this filter processes `xs` from its
    /// current state.
    pub open spec fn spec_nth_output(self, xs: Seq<i64>, i: int) -> int {
        self.spec_after(xs, i).spec_output(xs[i] as int)
    }

    /// Zeroes the delay line only; the coefficients persist, so the filter
    /// can be reused on a new series without re-deriving them.
    pub fn reset(&mut self)
        ensures
            *final(self) == (Biquad { x1: 0, x2: 0, y1: 0, y2: 0, ..*old(self) }),
    {
        self.x1 = 0;
        self.x2 = 0;
        self.y1 = 0;
        self.y2 = 0;
    }

    /// Processes one sample and shifts the delay line.
    pub fn step(&mut self, x: i64) -> (y: i64)
        requires
            old(self).wf(),
            sample_ok(x as int),
        ensures
            *final(self) == old(self).spec_advance(x),
            y == old(self).spec_output(x as int),
            final(self).wf(),
    {
        proof {
            lemma_product_bound(self.b0 as int, x as int);
            lemma_product_bound(self.b1 as int, self.x1 as int);
            lemma_product_bound(self.b2 as int, self.x2 as int);
            lemma_product_bound(self.a1 as int, self.y1 as int);
            lemma_product_bound(self.a2 as int, self.y2 as int);
        }
        let acc: i128 = (self.b0 as i128) * (x as i128)
            + (self.b1 as i128) * (self.x1 as i128)
            + (self.b2 as i128) * (self.x2 as i128)
            + (self.a1 as i128) * (self.y1 as i128)
            + (self.a2 as i128) * (self.y2 as i128);
        let scaled: i128 = floor_div_i128(acc, COEFF_SCALE as i128);
        let y: i64 = if scaled > SAMPLE_LIMIT as i128 {
            SAMPLE_LIMIT
        } else if scaled < -SAMPLE_LIMIT as i128 {
            -SAMPLE_LIMIT
        } else {
            scaled as i64
        };
        self.x2 = self.x1;
        self.x1 = x;
        self.y2 = self.y1;
        self.y1 = y;
        y
    }

    /// Runs the filter over a whole series, producing one output sample per
    /// input sample; the delay line carries across, so consecutive calls
    /// continue the same signal.
    pub fn apply(&mut self, input: &Vec<i64>) -> (out: Vec<i64>)
        requires
            old(self).wf(),
            forall|i: int| 0 <= i < input@.len() ==> sample_ok(#[trigger] input@[i] as int),
        ensures
            out@.len() == input@.len(),
            forall|i: int| 0 <= i < input@.len()
                ==> #[trigger] out@[i] as int == old(self).spec_nth_output(input@, i),
            *final(self) == old(self).spec_after(input@, input@.len() as int),
            final(self).wf(),
    {
        let ghost bq0 = *self;
        let mut out: Vec<i64> = Vec::new();
        let mut i: usize = 0;
        while i < input.len()
            invariant
                0 <= i <= input@.len(),
                out@.len() == i,
                *self == bq0.spec_after(input@, i as int),
                self.wf(),
                bq0.wf(),
                forall|k: int| 0 <= k < input@.len() ==> sample_ok(#[trigger] input@[k] as int),
                forall|j: int| 0 <= j < i
                    ==> #[trigger] out@[j] as int == bq0.spec_nth_output(input@, j),
            decreases input@.len() - i,
        {
            let x = input[i];
            let y = self.step(x);
            out.push(y);
            i = i + 1;
        }
        out
    }

    /// Reports the coefficient set on standard error.
    ///
    /// Relies on `std::io::stderr`; diagnostic only, nothing is stated of
    /// the outcome.
    #[verifier::external_body]
    pub fn print(&self)
    {
        let mut err = std::io::stderr();
        let _ = writeln!(err, "b0: {}\nb1: {}\nb2: {}\na1: {}\na2: {}",
            self.b0, self.b1, self.b2, self.a1, self.a2);
    }

    /// Unity gain at zero frequency in fixed-point form: the feedforward sum
    /// equals 1.0 minus the feedback sum.
    pub open spec fn dc_balanced(self) -> bool {
        self.b0 + self.b1 + self.b2 == COEFF_SCALE - self.a1 - self.a2
    }

    /// The delay line sits at the steady state for a sustained input `x`.
    pub open spec fn settled_at(self, x: i64) -> bool {
        self.x1 == x && self.x2 == x && self.y1 == x && self.y2 == x
    }
}

/// Magnitude bound of a coefficient-sample product.
proof fn lemma_product_bound(c: int, v: int)
    requires
        -COEFF_LIMIT <= c <= COEFF_LIMIT,
        -SAMPLE_LIMIT <= v <= SAMPLE_LIMIT,
    ensures
        -(COEFF_LIMIT * SAMPLE_LIMIT) <= c * v <= COEFF_LIMIT * SAMPLE_LIMIT,
{
    assert(-(COEFF_LIMIT * SAMPLE_LIMIT) <= c * v <= COEFF_LIMIT * SAMPLE_LIMIT)
        by (nonlinear_arith)
        requires
            -COEFF_LIMIT <= c <= COEFF_LIMIT,
            -SAMPLE_LIMIT <= v <= SAMPLE_LIMIT,
    ;
}

/// Smooths `input` into the pre-allocated `output`, which must have the same
/// length; a length mismatch is reported and leaves both the output and the
/// filter untouched.
pub fn iir(input: &Vec<i64>, output: &mut Vec<i64>, bq: &mut Biquad) -> (r: Result<
    (),
    ShapeMismatchError,
>)
    requires
        old(bq).wf(),
        forall|i: int| 0 <= i < input@.len() ==> sample_ok(#[trigger] input@[i] as int),
    ensures
        match r {
            Ok(()) => {
                &&& old(output)@.len() == input@.len()
                &&& final(output)@.len() == input@.len()
                &&& forall|i: int| 0 <= i < input@.len()
                    ==> #[trigger] final(output)@[i] as int == old(bq).spec_nth_output(input@, i)
                &&& *final(bq) == old(bq).spec_after(input@, input@.len() as int)
                &&& final(bq).wf()
            },
            Err(e) => {
                &&& old(output)@.len() != input@.len()
                &&& e == (ShapeMismatchError {
                    input_len: input@.len() as usize,
                    output_len: old(output)@.len() as usize,
                })
                &&& *final(output) == *old(output)
                &&& *final(bq) == *old(bq)
            },
        },
{
    if input.len() != output.len() {
        return Err(ShapeMismatchError { input_len: input.len(), output_len: output.len() });
    }
    let filtered = bq.apply(input);
    *output = filtered;
    Ok(())
}

/// Processing a series mutates only the delay line: the coefficients a
/// filter was built with persist through any run, so the same instance can
/// smooth a new series after a `reset` without being re-derived.
pub proof fn lemma_filter_keeps_coefficients(bq: Biquad, xs: Seq<i64>, n: int)
    requires
        0 <= n,
    ensures
        bq.spec_after(xs, n).b0 == bq.b0,
        bq.spec_after(xs, n).b1 == bq.b1,
        bq.spec_after(xs, n).b2 == bq.b2,
        bq.spec_after(xs, n).a1 == bq.a1,
        bq.spec_after(xs, n).a2 == bq.a2,
    decreases n,
{
    if n > 0 {
        lemma_filter_keeps_coefficients(bq, xs, n - 1);
    }
}

/// In a DC-balanced filter whose delay line has settled at `x`, a further
/// input `x` reproduces `x` exactly: the steady-state gain at zero frequency
/// is one.
pub proof fn lemma_dc_unity_gain(bq: Biquad, x: i64)
    requires
        bq.wf(),
        bq.dc_balanced(),
        bq.settled_at(x),
        sample_ok(x as int),
    ensures
        bq.spec_output(x as int) == x,
        bq.spec_advance(x).settled_at(x),
        bq.spec_advance(x).wf(),
        bq.spec_advance(x).dc_balanced(),
{
    assert(bq.spec_acc(x as int) == COEFF_SCALE * (x as int)) by (nonlinear_arith)
        requires
            bq.x1 == x && bq.x2 == x && bq.y1 == x && bq.y2 == x,
            bq.b0 + bq.b1 + bq.b2 == COEFF_SCALE - bq.a1 - bq.a2,
            bq.spec_acc(x as int) == bq.b0 * x + bq.b1 * bq.x1 + bq.b2 * bq.x2
                + bq.a1 * bq.y1 + bq.a2 * bq.y2,
    ;
    lemma_div_multiples_vanish(x as int, COEFF_SCALE as int);
    assert(bq.spec_acc(x as int) / COEFF_SCALE as int == x as int);
}

/// A sustained step of height `x` through a DC-balanced, settled filter
/// leaves every output at `x`: the steady state persists for the whole
/// series.
pub proof fn lemma_dc_step_steady_state(bq: Biquad, xs: Seq<i64>, x: i64, n: int)
    requires
        bq.wf(),
        bq.dc_balanced(),
        bq.settled_at(x),
        sample_ok(x as int),
        0 <= n <= xs.len(),
        forall|i: int| 0 <= i < xs.len() ==> xs[i] == x,
    ensures
        bq.spec_after(xs, n).settled_at(x),
        bq.spec_after(xs, n).wf(),
        bq.spec_after(xs, n).dc_balanced(),
        forall|i: int| 0 <= i < n ==> bq.spec_nth_output(xs, i) == x,
    decreases n,
{
    if n > 0 {
        lemma_dc_step_steady_state(bq, xs, x, n - 1);
        lemma_dc_unity_gain(bq.spec_after(xs, n - 1), x);
        assert(forall|i: int| 0 <= i < n - 1 ==> bq.spec_nth_output(xs, i) == x);
        assert(bq.spec_nth_output(xs, n - 1) == x);
    }
}

} // verus!
