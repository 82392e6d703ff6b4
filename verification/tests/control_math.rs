use heatctl::duty_cycle::{clamp_power, compute_window};
use heatctl::pid_regulator::{startup_parameters, PidRegulator};
use heatctl::scale::scale_to_temperature;

#[test]
fn scale_low_endpoint() {
    assert_eq!(scale_to_temperature(0), -4000);
}

#[test]
fn scale_high_endpoint() {
    assert_eq!(scale_to_temperature(27648), 10000);
}

#[test]
fn scale_midrange_value() {
    assert_eq!(scale_to_temperature(13824), 3000);
}

#[test]
fn scale_extrapolates_above_range() {
    // 2 * 27648 lies past the calibrated range; the line continues.
    assert_eq!(scale_to_temperature(55296), 24000);
}

#[test]
fn scale_truncates_fractions() {
    // 1 raw unit is 14000/27648 hundredths of a degree, truncated to 0.
    assert_eq!(scale_to_temperature(1), -4000);
}

#[test]
fn window_partitions_period_at_half_power() {
    let w = compute_window(5000, 10000);
    assert_eq!(w.period_ms, 10000);
    assert_eq!(w.on_ms, 5000);
    assert_eq!(w.off_ms, 5000);
    assert_eq!(w.on_ms + w.off_ms, w.period_ms);
}

#[test]
fn window_partitions_period_at_odd_power() {
    // 33.33% of 10 s, truncated.
    let w = compute_window(3333, 10000);
    assert_eq!(w.on_ms, 3333);
    assert_eq!(w.off_ms, 6667);
    assert_eq!(w.on_ms + w.off_ms, w.period_ms);
}

#[test]
fn window_negative_power_is_all_off() {
    let w = compute_window(-2500, 10000);
    assert_eq!(w.on_ms, 0);
    assert_eq!(w.off_ms, 10000);
}

#[test]
fn window_excess_power_is_all_on() {
    let w = compute_window(15000, 10000);
    assert_eq!(w.on_ms, 10000);
    assert_eq!(w.off_ms, 0);
}

#[test]
fn window_zero_period() {
    let w = compute_window(5000, 0);
    assert_eq!(w.period_ms, 0);
    assert_eq!(w.on_ms, 0);
    assert_eq!(w.off_ms, 0);
}

#[test]
fn clamp_power_reports_heater_intent() {
    assert_eq!(clamp_power(-1), (0, false));
    assert_eq!(clamp_power(0), (0, true));
    assert_eq!(clamp_power(9999), (9999, true));
    assert_eq!(clamp_power(10001), (10000, true));
}

#[test]
fn pid_at_setpoint_yields_zero_output() {
    // Target 46.00 degrees, measurement 46.00 degrees: the output is
    // exactly zero and the window stays all-off.
    let mut pid = PidRegulator::new(startup_parameters(4600));
    let output = pid.next_output(4600);
    assert_eq!(output, 0);
    let (power, _) = clamp_power(output);
    let w = compute_window(power, 10000);
    assert_eq!(w.on_ms, 0);
    assert_eq!(w.off_ms, 10000);
}

#[test]
fn pid_far_below_setpoint_saturates_high() {
    // Target 46.00 degrees, measurement 20.00 degrees: the integral
    // accumulator saturates at its limit, the output exceeds full
    // power, and the window becomes all-on.
    let mut pid = PidRegulator::new(startup_parameters(4600));
    let mut output = 0i64;
    for _ in 0..50 {
        output = pid.next_output(2000);
    }
    // Proportional term 26.00% plus the saturated integral term 100%.
    assert_eq!(output, 2600 + 10000);
    let (power, heater) = clamp_power(output);
    assert_eq!(power, 10000);
    assert!(heater);
    let w = compute_window(power, 10000);
    assert_eq!(w.on_ms, 10000);
    assert_eq!(w.off_ms, 0);
}

#[test]
fn pid_first_step_has_no_derivative() {
    // kp 1.0, ki 0.1 on an error of 26.00 degrees: proportional 26%,
    // one integral step 2.6%, derivative zero on the first sample.
    let mut pid = PidRegulator::new(startup_parameters(4600));
    let output = pid.next_output(2000);
    assert_eq!(output, 2600 + 260);
}

#[test]
fn pid_derivative_counteracts_rising_measurement() {
    let mut pid = PidRegulator::new(startup_parameters(4600));
    let first = pid.next_output(2000);
    // The measurement rises 10.00 degrees in one step: kd 0.01 yields
    // -0.10% on top of the proportional and integral terms.
    let second = pid.next_output(3000);
    assert_eq!(first, 2600 + 260);
    assert_eq!(second, 1600 + 260 + 160 - 10);
}

#[test]
fn pid_setpoint_change_keeps_integral() {
    let mut pid = PidRegulator::new(startup_parameters(4600));
    pid.next_output(2000);
    let accumulated = pid.integral_centi;
    assert_eq!(accumulated, 260);
    pid.set_setpoint(5000);
    assert_eq!(pid.integral_centi, accumulated);
    assert_eq!(pid.params.setpoint_centi, 5000);
    // The next step works against the new setpoint with the kept
    // integral: error 30.00 degrees, integral 2.6% + 3.0%.
    let output = pid.next_output(2000);
    assert_eq!(output, 3000 + 260 + 300);
}

#[test]
fn pid_terms_clamp_independently() {
    // A huge error drives the proportional term far past its limit;
    // the output is the sum of the per-term clamps, not a single
    // combined clamp.
    let mut pid = PidRegulator::new(startup_parameters(1000000));
    let output = pid.next_output(-1000000);
    // Error 2_000_000: proportional clamps at 10000, one integral step
    // 100 * 2_000_000 / 1000 = 200_000 clamps at 10000.
    assert_eq!(output, 10000 + 10000);
}
