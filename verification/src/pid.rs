//! Proportional-integral-derivative primitive with clamped integral
//! (anti-windup) and derivative-on-measurement.
//!
//! Values (inputs, targets, integral bounds) are fixed-point integers in
//! nano-units; gains are in thousandths. A product `gain * value` is
//! therefore in pico-units, and the clamped output is in pico-units of
//! whatever quantity the loop drives (see `fixed`). The arithmetic of one
//! update is exact: no rounding happens inside the controller.

use vstd::prelude::*;
use crate::clamp;
use crate::fixed::{VAL_LIMIT, GAIN_LIMIT, clamp_i64};

verus! {

/// Immutable tuning of one loop: gains in thousandths, output bounds in
/// pico-units, integral bounds in nano-units.
#[derive(Clone, Copy)]
pub struct Parameters {
    pub kp: i64,
    pub ki: i64,
    pub kd: i64,
    pub output_min: i64,
    pub output_max: i64,
    pub integral_min: i64,
    pub integral_max: i64,
}

impl Parameters {
    /// Gains and integral bounds small enough that one update cannot
    /// overflow, and both bound pairs ordered.
    pub open spec fn wf(self) -> bool {
        &&& -GAIN_LIMIT <= self.kp <= GAIN_LIMIT
        &&& -GAIN_LIMIT <= self.ki <= GAIN_LIMIT
        &&& -GAIN_LIMIT <= self.kd <= GAIN_LIMIT
        &&& self.output_min <= self.output_max
        &&& self.integral_min <= self.integral_max
        &&& -VAL_LIMIT <= self.integral_min <= VAL_LIMIT
        &&& -VAL_LIMIT <= self.integral_max <= VAL_LIMIT
    }
}

/// One PID loop: parameters, setpoint, accumulated (clamped) error, and
/// the previous input, absent until the first sample after construction
/// or reset.
pub struct Controller {
    pub parameters: Parameters,
    pub target: i64,
    pub integral: i64,
    pub last_input: Option<i64>,
}

impl Controller {
    /// Internal invariant: parameters well formed and all state bounded.
    pub open spec fn inv(self) -> bool {
        &&& self.parameters.wf()
        &&& -VAL_LIMIT <= self.target <= VAL_LIMIT
        &&& -VAL_LIMIT <= self.integral <= VAL_LIMIT
        &&& match self.last_input {
            Some(l) => -VAL_LIMIT <= l <= VAL_LIMIT,
            None => true,
        }
    }

    /// Instantaneous error of a sample against the setpoint.
    pub open spec fn spec_error(self, input: int) -> int {
        self.target - input
    }

    /// Integral state after accumulating one error and re-applying the
    /// clamp (anti-windup: a sustained one-directional error saturates
    /// the integral exactly at its bound).
    pub open spec fn spec_integral_after(self, input: int) -> int {
        clamp(
            self.integral + self.spec_error(input),
            self.parameters.integral_min as int,
            self.parameters.integral_max as int,
        )
    }

    /// Derivative term base: change of the measurement since the previous
    /// sample, zero when no previous sample exists (no derivative spike
    /// on the first sample after construction or reset).
    pub open spec fn spec_derivative(self, input: int) -> int {
        match self.last_input {
            None => 0,
            Some(l) => l - input,
        }
    }

    /// Unclamped controller output for one sample.
    pub open spec fn spec_raw_output(self, input: int) -> int {
        self.parameters.kp * self.spec_error(input)
            + self.parameters.ki * self.spec_integral_after(input)
            + self.parameters.kd * self.spec_derivative(input)
    }

    /// Clamped controller output for one sample.
    pub open spec fn spec_output(self, input: int) -> int {
        clamp(
            self.spec_raw_output(input),
            self.parameters.output_min as int,
            self.parameters.output_max as int,
        )
    }

    /// Whole state after one update on `input`.
    pub open spec fn spec_after(self, input: int) -> Controller {
        Controller {
            integral: self.spec_integral_after(input) as i64,
            last_input: Some(input as i64),
            ..self
        }
    }

    /// A fresh controller: setpoint zero, no accumulated error, no
    /// previous input.
    pub fn new(parameters: Parameters) -> (c: Controller)
        requires
            parameters.wf(),
        ensures
            c.parameters == parameters,
            c.target == 0,
            c.integral == 0,
            c.last_input is None,
            c.inv(),
    {
        Controller { parameters, target: 0, integral: 0, last_input: None }
    }

    /// Consume one sample: accumulate the clamped integral, form the
    /// proportional, integral and derivative terms, and return the output
    /// clamped into `[output_min, output_max]`. The returned value and
    /// the new state are exactly `spec_output` / `spec_after`; in
    /// particular the output always lies within the output bounds and the
    /// integral within the integral bounds.
    pub fn update(&mut self, input: i64) -> (output: i64)
        requires
            old(self).inv(),
            -VAL_LIMIT <= input <= VAL_LIMIT,
        ensures
            *final(self) == old(self).spec_after(input as int),
            final(self).inv(),
            output == old(self).spec_output(input as int),
            old(self).parameters.output_min <= output <= old(self).parameters.output_max,
            old(self).parameters.integral_min <= final(self).integral
                <= old(self).parameters.integral_max,
    {
        let error: i64 = self.target - input;

        let accumulated: i64 = self.integral + error;
        self.integral = clamp_i64(
            accumulated,
            self.parameters.integral_min,
            self.parameters.integral_max,
        );

        proof {
            assert(
                -2_000_000_000_000_000_000 <= self.parameters.kp * error
                    <= 2_000_000_000_000_000_000
            ) by (nonlinear_arith)
                requires
                    -GAIN_LIMIT <= self.parameters.kp <= GAIN_LIMIT,
                    -2_000_000_000_000 <= error <= 2_000_000_000_000,
            ;
            assert(
                -1_000_000_000_000_000_000 <= self.parameters.ki * self.integral
                    <= 1_000_000_000_000_000_000
            ) by (nonlinear_arith)
                requires
                    -GAIN_LIMIT <= self.parameters.ki <= GAIN_LIMIT,
                    -VAL_LIMIT <= self.integral <= VAL_LIMIT,
            ;
        }
        let p: i64 = self.parameters.kp * error;
        let i: i64 = self.parameters.ki * self.integral;

        let d: i64 = match self.last_input {
            None => 0,
            Some(last_input) => {
                let change: i64 = last_input - input;
                proof {
                    assert(
                        -2_000_000_000_000_000_000 <= self.parameters.kd * change
                            <= 2_000_000_000_000_000_000
                    ) by (nonlinear_arith)
                        requires
                            -GAIN_LIMIT <= self.parameters.kd <= GAIN_LIMIT,
                            -2_000_000_000_000 <= change <= 2_000_000_000_000,
                    ;
                }
                self.parameters.kd * change
            },
        };
        self.last_input = Some(input);

        let raw: i64 = p + i + d;
        clamp_i64(raw, self.parameters.output_min, self.parameters.output_max)
    }

    /// Overwrite the setpoint; the integral is deliberately left alone
    /// (a target change is not treated as a disturbance).
    pub fn set_target(&mut self, target: i64)
        requires
            -VAL_LIMIT <= target <= VAL_LIMIT,
        ensures
            *final(self) == (Controller { target, ..*old(self) }),
    {
        self.target = target;
    }

    /// Whether the previous input exists and sits strictly within
    /// `tolerance` of the setpoint.
    pub fn is_within(&self, tolerance: i64) -> (r: bool)
        requires
            self.inv(),
        ensures
            r == match self.last_input {
                None => false,
                Some(l) => -tolerance < l - self.target < tolerance,
            },
    {
        match self.last_input {
            None => false,
            Some(last_input) => {
                let deviation: i64 = last_input - self.target;
                deviation < tolerance && -deviation < tolerance
            },
        }
    }

    /// Clear the accumulated error and the previous input; the setpoint
    /// and parameters survive.
    pub fn reset(&mut self)
        ensures
            *final(self) == (Controller { integral: 0, last_input: None, ..*old(self) }),
    {
        self.integral = 0;
        self.last_input = None;
    }
}

/// State after a whole sequence of updates, applied in order.
pub open spec fn spec_run(c: Controller, inputs: Seq<int>) -> Controller
    decreases inputs.len(),
{
    if inputs.len() == 0 {
        c
    } else {
        spec_run(c.spec_after(inputs[0]), inputs.drop_first())
    }
}

/// For every sequence of inputs, every output the controller produces
/// lies within `[output_min, output_max]` and every integral state
/// within `[integral_min, integral_max]`: clamping holds at each step
/// of any run, not only for a single call.
pub proof fn lemma_run_always_clamped(c: Controller, inputs: Seq<int>, k: int)
    requires
        c.parameters.wf(),
        0 <= k < inputs.len(),
    ensures
        c.parameters.output_min <= spec_run(c, inputs.take(k)).spec_output(inputs[k])
            <= c.parameters.output_max,
        c.parameters.integral_min <= spec_run(c, inputs.take(k)).spec_integral_after(inputs[k])
            <= c.parameters.integral_max,
    decreases k,
{
    lemma_run_keeps_parameters(c, inputs.take(k));
}

/// Updates never touch the parameters: any run leaves them as they
/// were.
pub proof fn lemma_run_keeps_parameters(c: Controller, inputs: Seq<int>)
    ensures
        spec_run(c, inputs).parameters == c.parameters,
        spec_run(c, inputs).target == c.target,
    decreases inputs.len(),
{
    if inputs.len() > 0 {
        lemma_run_keeps_parameters(c.spec_after(inputs[0]), inputs.drop_first());
    }
}

/// After `reset`, the controller's next update is indistinguishable from
/// the first update of a freshly constructed controller with the same
/// parameters and setpoint: reset controller and fresh controller produce
/// the same output and the same successor state on every input.
pub proof fn lemma_reset_matches_fresh(reset_one: Controller, fresh_one: Controller, input: int)
    requires
        reset_one.parameters == fresh_one.parameters,
        reset_one.target == fresh_one.target,
        reset_one.integral == 0,
        reset_one.last_input is None,
        fresh_one.integral == 0,
        fresh_one.last_input is None,
    ensures
        reset_one.spec_output(input) == fresh_one.spec_output(input),
        reset_one.spec_after(input) == fresh_one.spec_after(input),
{
}

/// With nonnegative gains and the measurement held constant, successive
/// outputs ramp monotonically: while the input sits below the setpoint the
/// output never decreases, while above it never increases — the output
/// moves toward its clamp bound instead of oscillating.
pub proof fn lemma_constant_input_ramps(c: Controller, input: int)
    requires
        c.parameters.wf(),
        c.parameters.integral_min <= c.integral <= c.parameters.integral_max,
        c.last_input == Some(input as i64),
        -VAL_LIMIT <= input <= VAL_LIMIT,
        0 <= c.parameters.kp,
        0 <= c.parameters.ki,
        0 <= c.parameters.kd,
    ensures
        c.spec_error(input) >= 0 ==> c.spec_after(input).spec_output(input) >= c.spec_output(input),
        c.spec_error(input) <= 0 ==> c.spec_after(input).spec_output(input) <= c.spec_output(input),
{
    let after = c.spec_after(input);
    let e = c.spec_error(input);
    assert(after.spec_error(input) == e);
    assert(after.spec_derivative(input) == 0);
    assert(c.spec_derivative(input) == 0);
    if e >= 0 {
        assert(after.spec_integral_after(input) >= c.spec_integral_after(input));
        assert(
            c.parameters.ki * after.spec_integral_after(input)
                >= c.parameters.ki * c.spec_integral_after(input)
        ) by (nonlinear_arith)
            requires
                0 <= c.parameters.ki,
                after.spec_integral_after(input) >= c.spec_integral_after(input),
        ;
    } else {
        assert(after.spec_integral_after(input) <= c.spec_integral_after(input));
        assert(
            c.parameters.ki * after.spec_integral_after(input)
                <= c.parameters.ki * c.spec_integral_after(input)
        ) by (nonlinear_arith)
            requires
                0 <= c.parameters.ki,
                after.spec_integral_after(input) <= c.spec_integral_after(input),
        ;
    }
}

} // verus!

