use ionpak::latch::FaultMonitor;
use ionpak::loop_anode;
use ionpak::loop_cathode;

fn regulators_with_accumulated_error() -> (loop_anode::Controller, loop_cathode::Controller) {
    let mut anode = loop_anode::Controller::new();
    anode.set_target(165_000_000_000);
    anode.adc_input(0);
    let mut cathode = loop_cathode::Controller::new();
    cathode.set_emission_target(8_000_000);
    for _ in 0..16 {
        cathode.adc_input(228, 96, 1000, 2457);
    }
    assert_ne!(anode.pid.integral, 0);
    assert_ne!(cathode.fbi_pid.integral, 0);
    (anode, cathode)
}

#[test]
fn latch_observed_schedules_delayed_recovery() {
    let (mut anode, mut cathode) = regulators_with_accumulated_error();
    let mut monitor = FaultMonitor::new();

    // latch observed at t=0: recovery scheduled, nothing touched yet
    assert!(!monitor.poll(true, 0, &mut anode, &mut cathode));
    assert_eq!(monitor.deadline, Some(5000));
    assert_ne!(anode.pid.integral, 0);

    // still before or at the deadline: nothing happens
    assert!(!monitor.poll(true, 4999, &mut anode, &mut cathode));
    assert!(!monitor.poll(true, 5000, &mut anode, &mut cathode));
    assert_eq!(monitor.deadline, Some(5000));

    // past the deadline with the latch still set: both regulators'
    // loop state clears and the caller is told to pulse the hardware
    assert!(monitor.poll(true, 5001, &mut anode, &mut cathode));
    assert_eq!(monitor.deadline, None);
    assert_eq!(anode.pid.integral, 0);
    assert!(anode.pid.last_input.is_none());
    assert!(!anode.get_status().ready);
    assert!(anode.get_status().av.is_none());
    assert_eq!(cathode.fbi_pid.integral, 0);
    assert!(cathode.fbi_pid.last_input.is_none());
    assert_eq!(cathode.fv_pid.integral, 0);
    assert!(cathode.fv_pid.last_input.is_none());
    assert!(!cathode.get_status().ready);
    assert!(cathode.get_status().fbi.is_none());
    // setpoints survive recovery
    assert_eq!(anode.target, 165_000_000_000);
    assert_eq!(cathode.fbi_target, 8_000_000);
}

#[test]
fn clear_latch_does_nothing() {
    let (mut anode, mut cathode) = regulators_with_accumulated_error();
    let mut monitor = FaultMonitor::new();
    assert!(!monitor.poll(false, 0, &mut anode, &mut cathode));
    assert_eq!(monitor.deadline, None);
    assert_ne!(anode.pid.integral, 0);
}

#[test]
fn pending_deadline_survives_a_clear_reading() {
    let (mut anode, mut cathode) = regulators_with_accumulated_error();
    let mut monitor = FaultMonitor::new();
    assert!(!monitor.poll(true, 0, &mut anode, &mut cathode));
    // the latch reads clear before the deadline: the pending recovery
    // deliberately stays pending
    assert!(!monitor.poll(false, 99_999, &mut anode, &mut cathode));
    assert_eq!(monitor.deadline, Some(5000));
    assert_ne!(anode.pid.integral, 0);
    // the latch reasserts past the deadline: recovery runs
    assert!(monitor.poll(true, 100_000, &mut anode, &mut cathode));
    assert_eq!(anode.pid.integral, 0);
}
