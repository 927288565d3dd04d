use ionpak::loop_cathode::Controller;
use ionpak::range::EmissionRange;

#[test]
fn emission_target_selects_range_by_thresholds() {
    let mut c = Controller::new();
    assert_eq!(c.set_emission_target(120_000), EmissionRange::Low);
    assert_eq!(c.fbi_range, EmissionRange::Low);
    assert_eq!(c.set_emission_target(120_001), EmissionRange::Med);
    assert_eq!(c.set_emission_target(8_000_000), EmissionRange::Med);
    assert_eq!(c.set_emission_target(8_000_001), EmissionRange::High);
}

#[test]
fn range_switch_keeps_loop_state() {
    let mut c = Controller::new();
    c.set_emission_target(500_000);
    c.adc_input(228, 96, 1000, 2457);
    let integral = c.fbi_pid.integral;
    let count = c.fbi_buffer_count;
    // switching range deliberately clears neither the averaging window
    // nor the loop integrals
    c.set_emission_target(8_000_001);
    assert_eq!(c.fbi_pid.integral, integral);
    assert_eq!(c.fbi_buffer_count, count);
}

#[test]
fn medium_range_compensation_adds_shunt_current() {
    let mut c = Controller::new();
    c.set_emission_target(500_000);  // medium range
    c.adc_input(2096, 96, 1000, 2457);
    // sense voltage (2096-96)*750000 nV; base path through 22K plus
    // shunt path through 200R against a zero diode reading
    assert_eq!(c.fbi_buffer, 68_181 + 7_500_000);
}

#[test]
fn low_range_compensation_is_base_path_only() {
    let mut c = Controller::new();
    c.set_emission_target(100_000);  // low range
    c.adc_input(2096, 96, 1000, 2457);
    assert_eq!(c.fbi_buffer, 68_181);
}

#[test]
fn low_range_inverse_sample_reconstructs_current() {
    // the inverse of the low-range formula for 100 uA lands in the ADC
    // span and compensates back to within one count's current
    let mut c = Controller::new();
    c.set_emission_target(100_000);
    c.adc_input(3029, 96, 1000, 2457);
    let reconstructed = c.fbi_buffer;
    assert!(0 <= 100_000 - reconstructed && 100_000 - reconstructed <= 34);
}

#[test]
fn block_average_emits_after_sixteen_samples() {
    let mut c = Controller::new();
    c.set_emission_target(500_000);
    for _ in 0..15 {
        c.adc_input(228, 96, 1000, 2457);
        assert!(c.get_status().fbi.is_none());
    }
    c.adc_input(228, 96, 1000, 2457);
    // all sixteen samples compensate to the same current
    assert_eq!(c.get_status().fbi, Some(499_500));
    assert_eq!(c.fbi_buffer_count, 0);
}

#[test]
fn readiness_needs_both_checks() {
    let mut c = Controller::new();
    c.set_emission_target(500_000);
    c.set_bias_target(50_000_000_000);  // 50 V
    for _ in 0..16 {
        c.adc_input(228, 96, 1000, 2457);
    }
    // averaged 499500 nA sits within 5% of 500000 nA, and the bias
    // reading 50.002 V within 1 V of 50 V
    let status = c.get_status();
    assert_eq!(status.fbi, Some(499_500));
    assert_eq!(status.fbv, Some(2457 * 20_350_865));
    assert!(status.ready);
    // a zero emission setpoint is never ready (no division by zero)
    c.set_emission_target(0);
    assert!(!c.get_status().ready);
}

#[test]
fn bias_duty_is_open_loop_linear() {
    let mut c = Controller::new();
    let duty = c.set_bias_target(50_000_000_000);
    assert_eq!(duty, 654);
    // cross-check against the real-valued volts/gain mapping
    let expected = 50.0 / 0.07641071428571428;
    assert!((duty as f64 - expected).abs() < 1.0);
    // a negative setpoint saturates at zero duty
    let duty = c.set_bias_target(-1_000_000_000);
    assert_eq!(duty, 0);
}

#[test]
fn filament_conversion_and_monitoring_readings() {
    let mut c = Controller::new();
    c.adc_input(2096, 96, 1000, 2457);
    let status = c.get_status();
    assert_eq!(status.fv, Some(1000 * 1_992_689));
    assert_eq!(status.fbv, Some(2457 * 20_350_865));
    assert!(status.fv_target.is_some());
}

#[test]
fn outer_output_ramps_monotonically_on_constant_input() {
    let mut c = Controller::new();
    c.set_emission_target(8_000_000);
    let mut previous: i64 = i64::MIN;
    for _ in 0..64 {
        c.adc_input(228, 96, 1000, 2457);
        let fv_target = c.get_status().fv_target.expect("set each tick");
        assert!(fv_target >= previous, "outer output moved away from its clamp");
        previous = fv_target;
    }
    // by then the outer loop has saturated at its upper output clamp,
    // 3.1 volts
    assert_eq!(previous, 3_100_000_000);
}

#[test]
fn reset_clears_cascade_state() {
    let mut c = Controller::new();
    c.set_emission_target(500_000);
    c.set_bias_target(50_000_000_000);
    for _ in 0..16 {
        c.adc_input(228, 96, 1000, 2457);
    }
    assert!(c.get_status().ready);
    c.reset();
    assert_eq!(c.fbi_pid.integral, 0);
    assert!(c.fbi_pid.last_input.is_none());
    assert_eq!(c.fv_pid.integral, 0);
    assert!(c.fv_pid.last_input.is_none());
    assert_eq!(c.fbi_buffer_count, 0);
    let status = c.get_status();
    assert!(status.fbi.is_none());
    assert!(status.fv.is_none());
    assert!(status.fv_target.is_none());
    assert!(status.fbv.is_none());
    assert!(!status.ready);
    // the setpoints survive
    assert_eq!(c.fbi_target, 500_000);
    assert_eq!(c.fbv_target, 50_000_000_000);
}

#[test]
fn medium_range_compensation_subtracts_measured_diode_voltage() {
    let mut c = Controller::new();
    c.set_emission_target(500_000);
    c.adc_input(2096, 2096, 1000, 2457);
    // diode voltage (2096-96)*2250000/7 nV reduces the shunt current
    let fd_nv: i64 = 2000 * 2_250_000 / 7;
    let fbi_nv: i64 = 2000 * 750_000;
    let expected = fbi_nv / 22_000 + (fbi_nv - fd_nv) / 200;
    assert_eq!(c.fbi_buffer, expected);
    assert_eq!(c.fbi_buffer, 68_181 + 4_285_714);
}

#[test]
fn below_offset_sample_gives_negative_current() {
    let mut c = Controller::new();
    c.set_emission_target(100_000); // low range
    c.adc_input(0, 96, 1000, 2457);
    // sense voltage -96 counts; division truncates toward zero
    assert_eq!(c.fbi_buffer, -3_272);
}
