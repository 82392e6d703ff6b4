//! The shared control state the host service reads: enablement intent
//! and the last published telemetry. The loop and the coordinator mutate
//! it; the invariant is that a published power level always lies within
//! the full range.

use vstd::prelude::*;
use crate::coordinator::PlcData;
use crate::duty_cycle::POWER_FULL_CENTI;

verus! {

/// Enablement intent and the last published telemetry, in the library's
/// fixed-point units.
#[derive(Clone, Copy)]
pub struct ControlState {
    pub enabled: bool,
    /// Target temperature, in hundredths of a degree Celsius.
    pub target_centi: i32,
    /// Last published measurement, in hundredths of a degree Celsius.
    pub current_centi: i32,
    /// Last published power level, in hundredths of a percent.
    pub power_centi: i32,
    pub heater_on: bool,
    pub water_present: bool,
}

impl ControlState {
    /// The published power level always lies within the full range.
    pub open spec fn wf(self) -> bool {
        0 <= self.power_centi <= POWER_FULL_CENTI
    }

    /// The state at startup: disabled, nothing published yet.
    pub fn new() -> (state: ControlState)
        ensures
            state.wf(),
            !state.enabled,
            state.target_centi == 0,
            state.current_centi == 0,
            state.power_centi == 0,
            !state.heater_on,
            !state.water_present,
    {
        ControlState {
            enabled: false,
            target_centi: 0,
            current_centi: 0,
            power_centi: 0,
            heater_on: false,
            water_present: false,
        }
    }

    /// Records the toggled enablement intent; always succeeds.
    pub fn set_enabled(&mut self, enabled: bool)
        requires
            old(self).wf(),
        ensures
            final(self).wf(),
            *final(self) == (ControlState { enabled, ..*old(self) }),
    {
        self.enabled = enabled;
    }

    /// Changes the target temperature without touching the published
    /// telemetry.
    pub fn set_target_temperature(&mut self, target_centi: i32)
        requires
            old(self).wf(),
        ensures
            final(self).wf(),
            *final(self) == (ControlState { target_centi, ..*old(self) }),
    {
        self.target_centi = target_centi;
    }

    /// Publishes one telemetry record. The enablement intent is the
    /// supervisor's, not the record's, and stays as it is.
    pub fn publish_record(&mut self, record: &PlcData)
        requires
            old(self).wf(),
            0 <= record.power_centi <= POWER_FULL_CENTI,
        ensures
            final(self).wf(),
            final(self).enabled == old(self).enabled,
            final(self).target_centi == record.target_centi,
            final(self).current_centi == record.current_centi,
            final(self).power_centi == record.power_centi,
            final(self).heater_on == record.heater_on,
            final(self).water_present == record.water_present,
    {
        self.target_centi = record.target_centi;
        self.current_centi = record.current_centi;
        self.power_centi = record.power_centi;
        self.heater_on = record.heater_on;
        self.water_present = record.water_present;
    }

    /// The state as the host service reads it.
    pub fn current_status(&self) -> (status: ControlState)
        ensures
            status == *self,
    {
        *self
    }
}

} // verus!
