use ionpak::pid::{Controller, Parameters};

// Gains are in thousandths and outputs in thousandths of the product
// unit, so unit gain is 1000 and an output bound of 100 units is
// 100_000.
fn unit_params() -> Parameters {
    Parameters {
        kp: 1000,
        ki: 0,
        kd: 0,
        output_min: 0,
        output_max: 100_000,
        integral_min: 0,
        integral_max: 0,
    }
}

#[test]
fn proportional_only_update() {
    let mut c = Controller::new(unit_params());
    c.set_target(10);
    let out = c.update(7);
    assert_eq!(out, 3000);
}

#[test]
fn output_stays_within_bounds_for_any_input_sequence() {
    let params = Parameters {
        kp: 500_000,
        ki: 300_000,
        kd: 100_000,
        output_min: -2_000,
        output_max: 7_000,
        integral_min: -50,
        integral_max: 90,
    };
    let mut c = Controller::new(params);
    c.set_target(1_000_000);
    let inputs: [i64; 8] = [
        0,
        -1_000_000_000_000,
        1_000_000_000_000,
        5,
        -7,
        999_999_999_999,
        -999_999_999_999,
        42,
    ];
    for input in inputs.iter() {
        let out = c.update(*input);
        assert!(params.output_min <= out && out <= params.output_max);
        assert!(params.integral_min <= c.integral && c.integral <= params.integral_max);
    }
}

#[test]
fn integral_saturates_at_bound() {
    let params = Parameters {
        kp: 0,
        ki: 1000,
        kd: 0,
        output_min: -1_000_000_000,
        output_max: 1_000_000_000,
        integral_min: -25,
        integral_max: 25,
    };
    let mut c = Controller::new(params);
    c.set_target(10);
    // constant error 10 accumulates 10 per update and clamps at 25
    assert_eq!(c.update(0), 10_000);
    assert_eq!(c.integral, 10);
    assert_eq!(c.update(0), 20_000);
    assert_eq!(c.integral, 20);
    assert_eq!(c.update(0), 25_000);
    assert_eq!(c.integral, 25);
    assert_eq!(c.update(0), 25_000);
    assert_eq!(c.integral, 25);
}

#[test]
fn no_derivative_spike_on_first_sample() {
    let params = Parameters {
        kp: 0,
        ki: 0,
        kd: 1000,
        output_min: -1_000_000_000,
        output_max: 1_000_000_000,
        integral_min: 0,
        integral_max: 0,
    };
    let mut c = Controller::new(params);
    c.set_target(0);
    // first sample: no previous input, derivative term is zero
    assert_eq!(c.update(500), 0);
    // second sample: derivative on measurement, last - input
    assert_eq!(c.update(300), 200_000);
}

#[test]
fn reset_then_update_matches_fresh_controller() {
    let params = Parameters {
        kp: 700,
        ki: 300,
        kd: 200,
        output_min: -500_000,
        output_max: 500_000,
        integral_min: -40,
        integral_max: 40,
    };
    let mut used = Controller::new(params);
    used.set_target(17);
    used.update(3);
    used.update(-20);
    used.update(55);
    used.reset();

    let mut fresh = Controller::new(params);
    fresh.set_target(17);

    for x in [-9i64, 0, 4, 17, 123].iter() {
        let mut a = Controller {
            parameters: used.parameters,
            target: used.target,
            integral: used.integral,
            last_input: used.last_input,
        };
        let mut b = Controller {
            parameters: fresh.parameters,
            target: fresh.target,
            integral: fresh.integral,
            last_input: fresh.last_input,
        };
        assert_eq!(a.update(*x), b.update(*x));
        assert_eq!(a.integral, b.integral);
        assert_eq!(a.last_input, b.last_input);
    }
}

#[test]
fn is_within_requires_a_sample() {
    let mut c = Controller::new(unit_params());
    c.set_target(10);
    assert!(!c.is_within(1_000_000));
    c.update(8);
    assert!(c.is_within(3));
    assert!(!c.is_within(2));
}
