//! The single-rate control loop's per-iteration decisions.
//!
//! The host runs the loop: each iteration it asks the supervisor whether
//! to go on, reads the interlock bit, and only then touches the sensor
//! and the actuator. Everything the iteration decides — whether to stop,
//! whether to skip, and with what schedule to drive the heater — is
//! computed here; the host only performs the bus reads, the bus writes
//! and the two sleeps that the plan dictates.

use vstd::prelude::*;
use crate::duty_cycle::{clamp_power, clamp_power_centi, compute_window, DutyCycleWindow,
    PERIOD_MS_MAX, POWER_FULL_CENTI};
use crate::pid_regulator::{spec_control_output, PidRegulator};
use crate::scale::{raw_to_centi_temp, scale_to_temperature};

verus! {

/// What an iteration does before any sensor read: terminate, wait for
/// the medium to return, or proceed to regulation.
pub enum LoopGate {
    /// The supervisor withdrew this loop's authority: terminate.
    Stop,
    /// The interlock reports no medium: neither the temperature is read
    /// nor the actuator written this iteration; wait one poll interval.
    WaitForWater,
    /// Read the sensor, regulate, and actuate.
    Proceed,
}

/// Decides an iteration's fate from the supervisor's answer and the
/// interlock bit. Absence of the medium suppresses every read and write
/// of the iteration.
pub fn iteration_gate(continue_running: bool, water_present: bool) -> (gate: LoopGate)
    ensures
        gate is Stop <==> !continue_running,
        gate is WaitForWater <==> (continue_running && !water_present),
        gate is Proceed <==> (continue_running && water_present),
{
    if !continue_running {
        LoopGate::Stop
    } else if !water_present {
        LoopGate::WaitForWater
    } else {
        LoopGate::Proceed
    }
}

/// Everything one iteration decides once it has the raw sensor value.
pub struct ActuationPlan {
    /// The scaled measurement, in hundredths of a degree Celsius.
    pub temperature_centi: i32,
    /// The regulator's raw control output, in hundredths of a percent.
    pub control_output_centi: i64,
    /// The control output clamped into the power range.
    pub power_centi: i64,
    /// Whether the heater is logically commanded at all this cycle; a
    /// negative control output disables it.
    pub heater_intent: bool,
    /// The ON/OFF schedule for the actuation period.
    pub window: DutyCycleWindow,
}

/// Computes one iteration's actuation plan: scales the raw sensor value,
/// advances the regulator, clamps its output into the power range, and
/// schedules the ON/OFF window over the actuation period.
pub fn plan_actuation(pid: &mut PidRegulator, raw_temperature: u16, period_ms: u64) -> (plan:
    ActuationPlan)
    requires
        old(pid).wf(),
        period_ms <= PERIOD_MS_MAX,
    ensures
        final(pid).wf(),
        final(pid).params == old(pid).params,
        plan.temperature_centi == raw_to_centi_temp(raw_temperature as int),
        plan.control_output_centi == spec_control_output(
            *old(pid),
            raw_to_centi_temp(raw_temperature as int),
        ),
        plan.power_centi == clamp_power_centi(plan.control_output_centi as int),
        plan.heater_intent == (plan.control_output_centi >= 0),
        plan.window.wf(),
        plan.window.period_ms == period_ms,
        plan.window.on_ms == period_ms * plan.power_centi / (POWER_FULL_CENTI as int),
        plan.window.on_ms + plan.window.off_ms == period_ms,
        plan.control_output_centi <= 0 ==> plan.window.on_ms == 0,
        plan.control_output_centi >= POWER_FULL_CENTI ==> plan.window.on_ms == period_ms,
{
    let temperature_centi = scale_to_temperature(raw_temperature);
    let control_output_centi = pid.next_output(temperature_centi as i64);
    let (power_centi, heater_intent) = clamp_power(control_output_centi);
    let window = compute_window(power_centi, period_ms);
    ActuationPlan { temperature_centi, control_output_centi, power_centi, heater_intent, window }
}

} // verus!
