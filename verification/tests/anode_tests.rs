use ionpak::loop_anode::Controller;

#[test]
fn sample_conversion_uses_anode_gain() {
    let mut c = Controller::new();
    c.adc_input(1000);
    // 147216797 nanovolts per count
    assert_eq!(c.get_status().av, Some(147_216_797_000));
    // cross-check against the real-valued conversion sample/gain
    let volts = 147_216_797_000f64 * 1e-9;
    let expected = 1000.0 / 6.792703150912105;
    assert!((volts - expected).abs() / expected < 1e-6);
}

#[test]
fn first_sample_duty_from_cold_start() {
    let mut c = Controller::new();
    c.set_target(165_000_000_000);  // 165 V
    // reading zero volts: proportional 0.2 * 165 plus integral
    // 0.05 * 165 of one accumulated error, all in duty counts
    let duty = c.adc_input(0);
    assert_eq!(duty, 41);
}

#[test]
fn duty_clamps_at_zero_above_target() {
    let mut c = Controller::new();
    c.set_target(165_000_000_000);
    // 1121 counts read back as slightly above the setpoint
    let duty = c.adc_input(1121);
    assert_eq!(duty, 0);
}

#[test]
fn ready_within_two_volts_of_target() {
    let mut c = Controller::new();
    c.set_target(165_000_000_000);
    assert!(!c.get_status().ready);
    c.adc_input(1121);  // 165.030 V
    assert!(c.get_status().ready);
    c.set_target(170_000_000_000);
    assert!(!c.get_status().ready);
}

#[test]
fn reset_clears_loop_state_and_forces_zero_duty() {
    let mut c = Controller::new();
    c.set_target(165_000_000_000);
    c.adc_input(0);
    assert_ne!(c.pid.integral, 0);
    let fail_safe = c.reset();
    assert_eq!(fail_safe, 0);
    assert_eq!(c.pid.integral, 0);
    assert!(c.pid.last_input.is_none());
    let status = c.get_status();
    assert!(status.av.is_none());
    assert!(!status.ready);
    // the setpoint survives a reset
    assert_eq!(c.target, 165_000_000_000);
}
