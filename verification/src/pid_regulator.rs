//! Proportional-integral-derivative regulator over fixed-point values.
//!
//! Temperatures and the setpoint are carried in hundredths of a degree
//! Celsius, the control output in hundredths of a percent, and the gains
//! in thousandths. Each term's contribution is independently clamped to
//! its own limit before summation (per-term anti-windup); the returned
//! control output is the unclamped sum of the three clamped terms, and
//! final range clamping is the caller's responsibility. The regulator
//! must be invoked at a consistent sampling interval, because the
//! derivative term's scaling assumes a fixed time step. Changing the
//! setpoint does not reset the accumulated integral state.

use vstd::prelude::*;
use vstd::arithmetic::div_mod::{lemma_div_nonincreasing, lemma_div_pos_is_pos};

verus! {

/// Largest gain magnitude accepted, in thousandths.
pub const GAIN_MILLI_MAX: i64 = 1_000_000;

/// Largest per-term limit accepted, in hundredths of a percent.
pub const LIMIT_CENTI_MAX: i64 = 1_000_000;

/// Largest measurement or setpoint magnitude accepted, in hundredths of
/// a degree Celsius.
pub const TEMP_CENTI_MAX: i64 = 1_000_000;

/// Quotient truncated toward zero, for a positive divisor, as the
/// machine division computes it.
pub open spec fn div_trunc_1000(a: int) -> int {
    if a >= 0 {
        a / 1000
    } else {
        -((-a) / 1000)
    }
}

/// A value clamped into `[-limit, limit]`.
pub open spec fn clamp_to_limit(v: int, limit: int) -> int {
    if v < -limit {
        -limit
    } else if v > limit {
        limit
    } else {
        v
    }
}

/// One term's contribution: the scaled product of its gain and input,
/// clamped to the term's own limit.
pub open spec fn term_contribution(gain_milli: int, input: int, limit: int) -> int {
    clamp_to_limit(div_trunc_1000(gain_milli * input), limit)
}

/// Each term's contribution is independently confined to its own limit
/// before the terms are summed, whatever its gain and input.
pub proof fn lemma_term_within_limit(gain_milli: int, input: int, limit: int)
    requires
        limit >= 0,
    ensures
        -limit <= term_contribution(gain_milli, input, limit) <= limit,
{
}

/// Gains, per-term limits and the setpoint. Configured once at startup;
/// the setpoint may be updated afterwards without touching the rest.
pub struct PidParameters {
    /// Proportional gain, in thousandths.
    pub kp_milli: i64,
    /// Limit on the proportional term, in hundredths of a percent.
    pub p_limit_centi: i64,
    /// Integral gain, in thousandths.
    pub ki_milli: i64,
    /// Limit on the accumulated integral term, in hundredths of a percent.
    pub i_limit_centi: i64,
    /// Derivative gain, in thousandths.
    pub kd_milli: i64,
    /// Limit on the derivative term, in hundredths of a percent.
    pub d_limit_centi: i64,
    /// Target temperature, in hundredths of a degree Celsius.
    pub setpoint_centi: i64,
}

impl PidParameters {
    /// Bounds under which every intermediate product of the regulator
    /// fits comfortably in a machine word.
    pub open spec fn wf(self) -> bool {
        &&& -GAIN_MILLI_MAX <= self.kp_milli <= GAIN_MILLI_MAX
        &&& -GAIN_MILLI_MAX <= self.ki_milli <= GAIN_MILLI_MAX
        &&& -GAIN_MILLI_MAX <= self.kd_milli <= GAIN_MILLI_MAX
        &&& 0 <= self.p_limit_centi <= LIMIT_CENTI_MAX
        &&& 0 <= self.i_limit_centi <= LIMIT_CENTI_MAX
        &&& 0 <= self.d_limit_centi <= LIMIT_CENTI_MAX
        &&& -TEMP_CENTI_MAX <= self.setpoint_centi <= TEMP_CENTI_MAX
    }

    /// The regulation error for a measurement: setpoint minus measurement.
    pub open spec fn error_of(self, measurement_centi: int) -> int {
        self.setpoint_centi - measurement_centi
    }
}

/// The gain and limit configuration the service applies at startup:
/// proportional gain 1.0, integral gain 0.1, derivative gain 0.01, each
/// term limited to 100 percent of output.
pub fn startup_parameters(setpoint_centi: i64) -> (params: PidParameters)
    requires
        -TEMP_CENTI_MAX <= setpoint_centi <= TEMP_CENTI_MAX,
    ensures
        params.wf(),
        params.kp_milli == 1000 && params.p_limit_centi == 10000,
        params.ki_milli == 100 && params.i_limit_centi == 10000,
        params.kd_milli == 10 && params.d_limit_centi == 10000,
        params.setpoint_centi == setpoint_centi,
{
    PidParameters {
        kp_milli: 1000,
        p_limit_centi: 10000,
        ki_milli: 100,
        i_limit_centi: 10000,
        kd_milli: 10,
        d_limit_centi: 10000,
        setpoint_centi,
    }
}

/// The stateful regulator: parameters, the clamped integral accumulator,
/// and the previous measurement for the derivative term.
pub struct PidRegulator {
    pub params: PidParameters,
    /// Accumulated integral term, in hundredths of a percent; always
    /// within the integral term's limit.
    pub integral_centi: i64,
    /// Measurement of the previous sampling step, if any.
    pub prev_measurement_centi: Option<i64>,
}

/// The integral accumulator after one step: the previous accumulator
/// plus this step's scaled error, re-clamped to the integral limit.
pub open spec fn next_integral(params: PidParameters, integral: int, error: int) -> int {
    clamp_to_limit(
        integral + div_trunc_1000(params.ki_milli * error),
        params.i_limit_centi as int,
    )
}

/// The derivative term of one step: scaled decrease of the measurement,
/// clamped to the derivative limit; zero on the first step, when no
/// previous measurement exists.
pub open spec fn derivative_term(
    params: PidParameters,
    prev: Option<i64>,
    measurement: int,
) -> int {
    match prev {
        Option::None => 0,
        Option::Some(pm) => term_contribution(
            params.kd_milli as int,
            pm - measurement,
            params.d_limit_centi as int,
        ),
    }
}

/// The control output `next_output` returns for a regulator in a given
/// state: the sum of the three independently clamped terms.
pub open spec fn spec_control_output(reg: PidRegulator, measurement: int) -> int {
    term_contribution(
        reg.params.kp_milli as int,
        reg.params.error_of(measurement),
        reg.params.p_limit_centi as int,
    ) + next_integral(reg.params, reg.integral_centi as int, reg.params.error_of(measurement))
        + derivative_term(reg.params, reg.prev_measurement_centi, measurement)
}

impl PidRegulator {
    pub open spec fn wf(self) -> bool {
        &&& self.params.wf()
        &&& -self.params.i_limit_centi <= self.integral_centi <= self.params.i_limit_centi
        &&& match self.prev_measurement_centi {
            Option::None => true,
            Option::Some(m) => -TEMP_CENTI_MAX <= m <= TEMP_CENTI_MAX,
        }
    }

    /// A fresh regulator: no accumulated integral, no previous sample.
    pub fn new(params: PidParameters) -> (regulator: PidRegulator)
        requires
            params.wf(),
        ensures
            regulator.wf(),
            regulator.params == params,
            regulator.integral_centi == 0,
            regulator.prev_measurement_centi is None,
    {
        PidRegulator { params, integral_centi: 0, prev_measurement_centi: Option::None }
    }

    /// Changes the target temperature. The accumulated integral state
    /// and the previous sample are kept as they are.
    pub fn set_setpoint(&mut self, setpoint_centi: i64)
        requires
            old(self).wf(),
            -TEMP_CENTI_MAX <= setpoint_centi <= TEMP_CENTI_MAX,
        ensures
            final(self).wf(),
            final(self).params == (PidParameters { setpoint_centi, ..old(self).params }),
            final(self).integral_centi == old(self).integral_centi,
            final(self).prev_measurement_centi == old(self).prev_measurement_centi,
    {
        self.params.setpoint_centi = setpoint_centi;
    }

    /// Advances the regulator by one sampling step and returns the
    /// control output for the given measurement: the sum of the three
    /// independently clamped terms, itself unclamped.
    pub fn next_output(&mut self, measurement_centi: i64) -> (output: i64)
        requires
            old(self).wf(),
            -TEMP_CENTI_MAX <= measurement_centi <= TEMP_CENTI_MAX,
        ensures
            final(self).wf(),
            final(self).params == old(self).params,
            final(self).prev_measurement_centi == Some(measurement_centi),
            final(self).integral_centi == next_integral(
                old(self).params,
                old(self).integral_centi as int,
                old(self).params.error_of(measurement_centi as int),
            ),
            output == spec_control_output(*old(self), measurement_centi as int),
            -3 * LIMIT_CENTI_MAX <= output <= 3 * LIMIT_CENTI_MAX,
    {
        let error: i64 = self.params.setpoint_centi - measurement_centi;

        let p_term: i64 = clamp_to(
            scaled_product(self.params.kp_milli, error),
            self.params.p_limit_centi,
        );

        let i_step: i64 = scaled_product(self.params.ki_milli, error);
        self.integral_centi = clamp_to(
            self.integral_centi + i_step,
            self.params.i_limit_centi,
        );

        let d_term: i64 = match self.prev_measurement_centi {
            Option::None => 0,
            Option::Some(pm) => clamp_to(
                scaled_product(self.params.kd_milli, pm - measurement_centi),
                self.params.d_limit_centi,
            ),
        };

        self.prev_measurement_centi = Option::Some(measurement_centi);
        p_term + self.integral_centi + d_term
    }
}

/// The product of a gain (thousandths) and an input, brought back to the
/// input's scale with truncation toward zero, as the machine divides.
fn scaled_product(gain_milli: i64, input: i64) -> (r: i64)
    requires
        -GAIN_MILLI_MAX <= gain_milli <= GAIN_MILLI_MAX,
        -2 * TEMP_CENTI_MAX <= input <= 2 * TEMP_CENTI_MAX,
    ensures
        r == div_trunc_1000(gain_milli * input),
        -2 * GAIN_MILLI_MAX * TEMP_CENTI_MAX <= r <= 2 * GAIN_MILLI_MAX * TEMP_CENTI_MAX,
{
    proof {
        assert(-2_000_000_000_000 <= gain_milli * input <= 2_000_000_000_000) by (nonlinear_arith)
            requires
                -1_000_000 <= gain_milli <= 1_000_000 && -2_000_000 <= input <= 2_000_000,
        ;
    }
    let product: i64 = gain_milli * input;
    proof {
        let p = product as int;
        if p >= 0 {
            lemma_div_pos_is_pos(p, 1000);
            lemma_div_nonincreasing(p, 1000);
        } else {
            lemma_div_pos_is_pos(-p, 1000);
            lemma_div_nonincreasing(-p, 1000);
        }
    }
    match product.checked_div(1000) {
        Option::Some(r) => r,
        Option::None => 0,
    }
}

/// A value clamped into `[-limit, limit]`, as `clamp_to_limit` states.
fn clamp_to(v: i64, limit: i64) -> (r: i64)
    requires
        limit >= 0,
    ensures
        r == clamp_to_limit(v as int, limit as int),
        -limit <= r <= limit,
{
    if v < -limit {
        -limit
    } else if v > limit {
        limit
    } else {
        v
    }
}

} // verus!
