use heatctl::supervisor::ControlLoopSupervisor;

#[test]
fn first_enable_spawns_a_loop() {
    let mut sup = ControlLoopSupervisor::new();
    let token = sup.enable();
    assert_eq!(token, Some(1));
    assert!(sup.enabled);
    assert!(sup.loop_running);
}

#[test]
fn enable_twice_spawns_once() {
    let mut sup = ControlLoopSupervisor::new();
    let first = sup.enable();
    let second = sup.enable();
    assert_eq!(first, Some(1));
    assert_eq!(second, None);
}

#[test]
fn disable_then_enable_spawns_no_duplicate() {
    // The running loop has not yet observed the disable; re-enabling
    // must not put a second loop behind the actuator bit.
    let mut sup = ControlLoopSupervisor::new();
    let first = sup.enable();
    sup.disable();
    let second = sup.enable();
    assert_eq!(first, Some(1));
    assert_eq!(second, None);
    assert!(sup.enabled);
}

#[test]
fn loop_observes_disable_at_poll_boundary() {
    let mut sup = ControlLoopSupervisor::new();
    let token = sup.enable().unwrap();
    assert!(sup.should_continue(token));
    sup.disable();
    assert!(!sup.should_continue(token));
}

#[test]
fn fresh_loop_spawns_after_exit() {
    let mut sup = ControlLoopSupervisor::new();
    let first = sup.enable().unwrap();
    sup.disable();
    sup.loop_exited(first);
    let second = sup.enable();
    assert_eq!(second, Some(2));
    // The retired generation may not drive the actuator any more.
    assert!(!sup.should_continue(first));
    assert!(sup.should_continue(2));
}

#[test]
fn stale_exit_report_is_ignored() {
    let mut sup = ControlLoopSupervisor::new();
    let first = sup.enable().unwrap();
    sup.disable();
    sup.loop_exited(first);
    let second = sup.enable().unwrap();
    // A late exit report from the retired loop leaves the new one
    // tracked as running.
    sup.loop_exited(first);
    assert!(sup.loop_running);
    assert!(sup.should_continue(second));
    assert_eq!(sup.enable(), None);
}

#[test]
fn control_state_starts_with_defaults() {
    let state = heatctl::control_state::ControlState::new();
    assert!(!state.enabled);
    assert_eq!(state.power_centi, 0);
    assert_eq!(state.target_centi, 0);
    assert!(!state.heater_on);
    assert!(!state.water_present);
}

#[test]
fn control_state_publishes_telemetry() {
    let mut state = heatctl::control_state::ControlState::new();
    state.set_enabled(true);
    state.set_target_temperature(4600);
    assert_eq!(state.target_centi, 4600);
    let record = heatctl::coordinator::PlcData {
        temp_ai: 13824,
        power_centi: 7700,
        target_centi: 3000,
        current_centi: 3000,
        water_present: true,
        heater_enabled: true,
        heater_on: true,
    };
    state.publish_record(&record);
    // Publication carries the record's telemetry but not the intent.
    assert!(state.enabled);
    assert_eq!(state.power_centi, 7700);
    assert_eq!(state.target_centi, 3000);
    assert_eq!(state.current_centi, 3000);
    assert!(state.heater_on);
    assert!(state.water_present);
    let status = state.current_status();
    assert_eq!(status.power_centi, 7700);
    assert!(status.enabled);
}
