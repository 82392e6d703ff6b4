use heatctl::control_loop::{iteration_gate, plan_actuation, LoopGate};
use heatctl::interlock::{interpret_interlock_read, water_present_from_register};
use heatctl::pid_regulator::{startup_parameters, PidRegulator};

#[test]
fn gate_stops_when_not_continuing() {
    assert!(matches!(iteration_gate(false, true), LoopGate::Stop));
    assert!(matches!(iteration_gate(false, false), LoopGate::Stop));
}

#[test]
fn gate_waits_without_water() {
    // No medium: the iteration neither reads the sensor nor writes the
    // actuator; it waits one poll interval.
    assert!(matches!(iteration_gate(true, false), LoopGate::WaitForWater));
}

#[test]
fn gate_proceeds_with_water() {
    assert!(matches!(iteration_gate(true, true), LoopGate::Proceed));
}

#[test]
fn interlock_reads_presence_bit() {
    assert!(water_present_from_register(1));
    assert!(!water_present_from_register(0));
    assert!(!water_present_from_register(3));
}

#[test]
fn interlock_read_fault_fails_safe() {
    assert!(!interpret_interlock_read(None));
    assert!(interpret_interlock_read(Some(1)));
    assert!(!interpret_interlock_read(Some(0)));
}

#[test]
fn plan_at_setpoint_keeps_heater_off() {
    // Target 30.00 degrees; raw 13824 scales to exactly 30.00 degrees.
    let mut pid = PidRegulator::new(startup_parameters(3000));
    let plan = plan_actuation(&mut pid, 13824, 10000);
    assert_eq!(plan.temperature_centi, 3000);
    assert_eq!(plan.control_output_centi, 0);
    assert_eq!(plan.power_centi, 0);
    assert!(plan.heater_intent);
    assert_eq!(plan.window.on_ms, 0);
    assert_eq!(plan.window.off_ms, 10000);
}

#[test]
fn plan_below_setpoint_heats() {
    // Target 30.00 degrees; raw 0 scales to -40.00 degrees: error
    // 70.00 degrees gives proportional 70% and one integral step 7%.
    let mut pid = PidRegulator::new(startup_parameters(3000));
    let plan = plan_actuation(&mut pid, 0, 10000);
    assert_eq!(plan.temperature_centi, -4000);
    assert_eq!(plan.control_output_centi, 7000 + 700);
    assert_eq!(plan.power_centi, 7700);
    assert!(plan.heater_intent);
    assert_eq!(plan.window.on_ms, 7700);
    assert_eq!(plan.window.off_ms, 2300);
}

#[test]
fn plan_above_setpoint_shuts_heater() {
    // Target -10.00 degrees; raw 13824 scales to 30.00 degrees: the
    // control output is negative, so the heater is disabled for the
    // cycle and the window is all-off.
    let mut pid = PidRegulator::new(startup_parameters(-1000));
    let plan = plan_actuation(&mut pid, 13824, 10000);
    assert!(plan.control_output_centi < 0);
    assert_eq!(plan.power_centi, 0);
    assert!(!plan.heater_intent);
    assert_eq!(plan.window.on_ms, 0);
    assert_eq!(plan.window.off_ms, 10000);
}
