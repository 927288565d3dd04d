//! Anode voltage regulator: one PID loop holding the high-voltage anode
//! supply at a setpoint by driving the high-voltage PWM duty cycle.
//!
//! Voltages are nanovolts (`i64`); the raw 12-bit ADC sample is converted
//! through the fixed anode ADC gain, written here as an integer count of
//! nanovolts per sample count.

use vstd::prelude::*;
use crate::tdiv;
use crate::fixed::{VAL_LIMIT, PICO_PER_UNIT, ADC_SPAN, div_trunc};
use crate::pid;

verus! {

/// Nanovolts per ADC count: the reciprocal of the anode ADC gain
/// (counts per volt) in nanovolts.
pub const AV_NV_PER_COUNT: i64 = 147_216_797;

/// Readiness tolerance around the setpoint, nanovolts (two volts).
pub const READY_TOLERANCE_NV: i64 = 2_000_000_000;

/// Anode loop tuning: proportional 0.2 and integral 0.05 per-thousand
/// gains, duty output clamped to the 225-count PWM span (pico-duty), and
/// the integral clamped to seven hundred volts of accumulated error.
pub open spec fn spec_parameters() -> pid::Parameters {
    pid::Parameters {
        kp: 200,
        ki: 50,
        kd: 0,
        output_min: 0,
        output_max: 225_000_000_000_000,
        integral_min: -700_000_000_000i64,
        integral_max: 700_000_000_000,
    }
}

/// Anode voltage in nanovolts for a raw ADC sample.
pub open spec fn spec_av_nv(sample: u16) -> int {
    sample * AV_NV_PER_COUNT
}

/// The anode regulator: its PID loop, the voltage setpoint, and the most
/// recent converted anode voltage (absent until the first sample).
pub struct Controller {
    pub pid: pid::Controller,
    pub target: i64,
    pub last_av: Option<i64>,
}

/// Read-only snapshot handed to the reporting layer.
#[derive(Clone, Copy)]
pub struct ControllerStatus {
    pub ready: bool,
    pub av: Option<i64>,
}

impl Controller {
    /// Internal invariant: the PID loop carries the anode tuning, shares
    /// the regulator's setpoint, and all state is bounded.
    pub open spec fn inv(self) -> bool {
        &&& self.pid.inv()
        &&& self.pid.parameters == spec_parameters()
        &&& self.pid.target == self.target
        &&& -VAL_LIMIT <= self.target <= VAL_LIMIT
        &&& match self.last_av {
            Some(av) => -VAL_LIMIT <= av <= VAL_LIMIT,
            None => true,
        }
    }

    /// Ready when a converted sample exists and sits strictly within the
    /// fixed tolerance of the setpoint.
    pub open spec fn spec_ready(self) -> bool {
        match self.last_av {
            None => false,
            Some(av) => -READY_TOLERANCE_NV < av - self.target < READY_TOLERANCE_NV,
        }
    }

    /// A fresh regulator: setpoint zero, no sample seen yet.
    pub fn new() -> (c: Controller)
        ensures
            c.inv(),
            c.target == 0,
            c.last_av is None,
            c.pid.integral == 0,
            c.pid.last_input is None,
    {
        let parameters = pid::Parameters {
            kp: 200,
            ki: 50,
            kd: 0,
            output_min: 0,
            output_max: 225_000_000_000_000,
            integral_min: -700_000_000_000i64,
            integral_max: 700_000_000_000,
        };
        Controller { pid: pid::Controller::new(parameters), target: 0, last_av: None }
    }

    /// Consume one raw anode-voltage sample: convert it to nanovolts,
    /// remember it, run the PID loop on it, and return the duty cycle for
    /// the high-voltage PWM (the clamped PID output scaled down to raw
    /// duty counts, at most 225).
    pub fn adc_input(&mut self, av_sample: u16) -> (duty: u16)
        requires
            old(self).inv(),
            av_sample < ADC_SPAN,
        ensures
            final(self).inv(),
            final(self).target == old(self).target,
            final(self).last_av == Some((spec_av_nv(av_sample) as i64)),
            final(self).pid == old(self).pid.spec_after(spec_av_nv(av_sample)),
            duty == tdiv(old(self).pid.spec_output(spec_av_nv(av_sample)), PICO_PER_UNIT as int),
            duty <= 225,
    {
        let av_nv: i64 = (av_sample as i64) * AV_NV_PER_COUNT;
        self.last_av = Some(av_nv);

        let output: i64 = self.pid.update(av_nv);
        let duty_wide: i64 = div_trunc(output, PICO_PER_UNIT);
        duty_wide as u16
    }

    /// Overwrite the voltage setpoint, forwarding it to the PID loop; the
    /// accumulated integral is left alone.
    pub fn set_target(&mut self, nanovolts: i64)
        requires
            old(self).inv(),
            -VAL_LIMIT <= nanovolts <= VAL_LIMIT,
        ensures
            final(self).inv(),
            final(self).target == nanovolts,
            final(self).pid.target == nanovolts,
            final(self).pid.integral == old(self).pid.integral,
            final(self).pid.last_input == old(self).pid.last_input,
            final(self).last_av == old(self).last_av,
    {
        self.target = nanovolts;
        self.pid.set_target(nanovolts);
    }

    /// Fault recovery: clear the PID memory and the cached reading, and
    /// return the fail-safe zero duty cycle that must be written to the
    /// high-voltage PWM so no stale drive survives the reset.
    pub fn reset(&mut self) -> (duty: u16)
        requires
            old(self).inv(),
        ensures
            final(self).inv(),
            final(self).pid.integral == 0,
            final(self).pid.last_input is None,
            final(self).pid.target == old(self).pid.target,
            final(self).target == old(self).target,
            final(self).last_av is None,
            final(self).spec_ready() == false,
            duty == 0,
    {
        self.pid.reset();
        self.last_av = None;
        0
    }

    /// Read-only status snapshot: readiness and the last converted anode
    /// voltage.
    pub fn get_status(&self) -> (status: ControllerStatus)
        requires
            self.inv(),
        ensures
            status.ready == self.spec_ready(),
            status.av == self.last_av,
    {
        ControllerStatus { ready: self.ready(), av: self.last_av }
    }

    /// Whether the last reading sits within tolerance of the setpoint.
    fn ready(&self) -> (r: bool)
        requires
            self.inv(),
        ensures
            r == self.spec_ready(),
    {
        match self.last_av {
            None => false,
            Some(last_av) => {
                let deviation: i64 = last_av - self.target;
                deviation < READY_TOLERANCE_NV && -deviation < READY_TOLERANCE_NV
            },
        }
    }
}

} // verus!
