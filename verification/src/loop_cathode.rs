//! Cathode cascade regulator.
//!
//! An outer PID loop holds the emission current at its setpoint; its
//! output is the filament-voltage setpoint of an inner PID loop, whose
//! output drives the filament PWM. The emission current is derived from
//! the raw current-sense and diode-voltage samples through a
//! range-selected compensation model (a different shunt/diode network is
//! switched in per range). The bias voltage is driven open loop from a
//! fixed linear PWM mapping and only monitored.
//!
//! Voltages are nanovolts, currents nanoamperes (`i64`); ADC gains are
//! written as integer ratios of nano-units per sample count.

use vstd::prelude::*;
use crate::{clamp, tdiv};
use crate::fixed::{VAL_LIMIT, PICO_PER_UNIT, ADC_SPAN, abs_i64, clamp_i64, div_trunc};
use crate::pid;
use crate::range::{EmissionRange, spec_emission_range_for, emission_range_for};

verus! {

/// Nanovolts per offset-corrected count of the current-sense ADC.
pub const FBI_NV_PER_COUNT: i64 = 750_000;

/// Offset (raw counts) of the current-sense ADC.
pub const FBI_ADC_OFFSET: i64 = 96;

/// Nanovolts per offset-corrected count of the diode-voltage ADC,
/// numerator and denominator.
pub const FD_NV_NUM: i64 = 2_250_000;

pub const FD_NV_DEN: i64 = 7;

/// Offset (raw counts) of the diode-voltage ADC.
pub const FD_ADC_OFFSET: i64 = 96;

/// Nanovolts per count of the filament-voltage ADC.
pub const FV_NV_PER_COUNT: i64 = 1_992_689;

/// Nanovolts per count of the bias-voltage ADC.
pub const FBV_NV_PER_COUNT: i64 = 20_350_865;

/// Bias PWM gain: one duty count is `FBV_PWM_NV_NUM / FBV_PWM_NV_DEN`
/// nanovolts.
pub const FBV_PWM_NV_NUM: i64 = 534_875_000;

pub const FBV_PWM_NV_DEN: i64 = 7;

/// Base-range sense resistance (ohms), in circuit on every range.
pub const FBI_R225: i64 = 22_000;

/// Shunt resistance (ohms) added on the medium range.
pub const FBI_R223: i64 = 200;

/// Shunt resistance (ohms) added on the high range.
pub const FBI_R224: i64 = 39;

/// Assumed diode drop (nanovolts) on the high range, where the diode
/// path is physically bypassed and not measured.
pub const HIGH_RANGE_DIODE_DROP_NV: i64 = 900_000_000;

/// Samples per emitted emission-current block average.
pub const FBI_WINDOW: u8 = 16;

/// Bias readiness tolerance, nanovolts (one volt).
pub const BIAS_TOLERANCE_NV: i64 = 1_000_000_000;

/// Largest magnitude one compensated emission-current sample can take,
/// used to bound the averaging accumulator.
pub const FBI_NA_SAMPLE_LIMIT: i64 = 3_000_000_000;

/// Outer (emission-current) loop tuning: gains 200, 20 and 10 in
/// thousandths-scale, output (the filament-voltage setpoint) clamped to
/// 0.5..3.1 volts in pico-volts, integral clamped to a tenth of an
/// ampere of accumulated error.
pub open spec fn spec_fbi_parameters() -> pid::Parameters {
    pid::Parameters {
        kp: 200_000,
        ki: 20_000,
        kd: 10_000,
        output_min: 500_000_000_000,
        output_max: 3_100_000_000_000,
        integral_min: -100_000_000i64,
        integral_max: 100_000_000,
    }
}

/// Inner (filament-voltage) loop tuning: gains 20 and 1.5 in
/// thousandths-scale, duty output clamped to the 150-count PWM span in
/// pico-duty, integral clamped to fifty volts of accumulated error.
pub open spec fn spec_fv_parameters() -> pid::Parameters {
    pid::Parameters {
        kp: 20_000,
        ki: 1_500,
        kd: 0,
        output_min: 0,
        output_max: 150_000_000_000_000,
        integral_min: -50_000_000_000i64,
        integral_max: 50_000_000_000,
    }
}

/// Current-sense voltage in nanovolts for a raw sample (exact: the ADC
/// gain is 4000/3 counts per volt).
pub open spec fn spec_fbi_nv(sample: u16) -> int {
    (sample - FBI_ADC_OFFSET) * FBI_NV_PER_COUNT
}

/// Diode voltage in nanovolts for a raw sample.
pub open spec fn spec_fd_nv(sample: u16) -> int {
    tdiv((sample - FD_ADC_OFFSET) * FD_NV_NUM, FD_NV_DEN as int)
}

/// Filament voltage in nanovolts for a raw sample.
pub open spec fn spec_fv_nv(sample: u16) -> int {
    sample * FV_NV_PER_COUNT
}

/// Bias voltage in nanovolts for a raw sample.
pub open spec fn spec_fbv_nv(sample: u16) -> int {
    sample * FBV_NV_PER_COUNT
}

/// Low-range compensation: the 22K base path alone carries the current.
pub open spec fn spec_comp_low(fbi_nv: int) -> int {
    tdiv(fbi_nv, FBI_R225 as int)
}

/// Medium-range compensation: base path plus the current through the
/// 200R shunt, against the measured diode voltage.
pub open spec fn spec_comp_med(fbi_nv: int, fd_nv: int) -> int {
    tdiv(fbi_nv, FBI_R225 as int) + tdiv(fbi_nv - fd_nv, FBI_R223 as int)
}

/// High-range compensation: base path plus the current through the 39R
/// shunt, against the fixed assumed diode drop.
pub open spec fn spec_comp_high(fbi_nv: int) -> int {
    tdiv(fbi_nv, FBI_R225 as int) + tdiv(fbi_nv - HIGH_RANGE_DIODE_DROP_NV, FBI_R224 as int)
}

/// Compensated emission current in nanoamperes for one sample pair on
/// the given range.
pub open spec fn spec_compensated_na(range: EmissionRange, fbi_sample: u16, fd_sample: u16) -> int {
    match range {
        EmissionRange::Low => spec_comp_low(spec_fbi_nv(fbi_sample)),
        EmissionRange::Med => spec_comp_med(spec_fbi_nv(fbi_sample), spec_fd_nv(fd_sample)),
        EmissionRange::High => spec_comp_high(spec_fbi_nv(fbi_sample)),
    }
}

/// The cathode regulator: emission setpoint and range, the averaging
/// accumulator for the emission current, both PID loops, the bias
/// setpoint, and the cached readings (absent until measured).
pub struct Controller {
    pub fbi_target: i64,
    pub fbi_range: EmissionRange,
    pub fbi_buffer: i64,
    pub fbi_buffer_count: u8,
    pub last_fbi: Option<i64>,
    pub fbi_pid: pid::Controller,
    pub last_fv_target: Option<i64>,
    pub fv_pid: pid::Controller,
    pub last_fv: Option<i64>,
    pub fbv_target: i64,
    pub last_fbv: Option<i64>,
}

/// Read-only snapshot handed to the reporting layer.
#[derive(Clone, Copy)]
pub struct ControllerStatus {
    pub ready: bool,
    pub fbi: Option<i64>,
    pub fv_target: Option<i64>,
    pub fv: Option<i64>,
    pub fbv: Option<i64>,
}

impl Controller {
    /// Internal invariant: both PID loops carry their tunings, the outer
    /// loop shares the emission setpoint, and all state is bounded.
    pub open spec fn inv(self) -> bool {
        &&& self.fbi_pid.inv()
        &&& self.fbi_pid.parameters == spec_fbi_parameters()
        &&& self.fbi_pid.target == self.fbi_target
        &&& self.fv_pid.inv()
        &&& self.fv_pid.parameters == spec_fv_parameters()
        &&& -VAL_LIMIT <= self.fbi_target <= VAL_LIMIT
        &&& -VAL_LIMIT <= self.fbv_target <= VAL_LIMIT
        &&& self.fbi_buffer_count < FBI_WINDOW
        &&& -(self.fbi_buffer_count as int) * FBI_NA_SAMPLE_LIMIT <= self.fbi_buffer
            <= (self.fbi_buffer_count as int) * FBI_NA_SAMPLE_LIMIT
        &&& match self.last_fbi {
            Some(v) => -VAL_LIMIT <= v <= VAL_LIMIT,
            None => true,
        }
        &&& match self.last_fbv {
            Some(v) => -VAL_LIMIT <= v <= VAL_LIMIT,
            None => true,
        }
    }

    /// Ready when a block-averaged emission current exists and deviates
    /// from the setpoint by strictly less than one twentieth of it in
    /// magnitude (five percent relative error; a zero setpoint is never
    /// ready rather than a division by zero).
    pub open spec fn spec_emission_ready(self) -> bool {
        match self.last_fbi {
            None => false,
            Some(l) => 20 * abs_spec(self.fbi_target - l) < abs_spec(self.fbi_target as int),
        }
    }

    /// Ready when a bias reading exists within one volt of the setpoint.
    pub open spec fn spec_bias_ready(self) -> bool {
        match self.last_fbv {
            None => false,
            Some(l) => -BIAS_TOLERANCE_NV < self.fbv_target - l < BIAS_TOLERANCE_NV,
        }
    }

    /// The regulator as a whole is ready when both checks pass.
    pub open spec fn spec_ready(self) -> bool {
        self.spec_emission_ready() && self.spec_bias_ready()
    }

    /// A fresh regulator: medium emission range, zero setpoints, no
    /// samples seen yet.
    pub fn new() -> (c: Controller)
        ensures
            c.inv(),
            c.fbi_target == 0,
            c.fbi_range == EmissionRange::Med,
            c.fbi_buffer == 0,
            c.fbi_buffer_count == 0,
            c.last_fbi is None,
            c.last_fv_target is None,
            c.last_fv is None,
            c.fbv_target == 0,
            c.last_fbv is None,
            c.fbi_pid.integral == 0,
            c.fbi_pid.last_input is None,
            c.fv_pid.integral == 0,
            c.fv_pid.last_input is None,
    {
        let fbi_parameters = pid::Parameters {
            kp: 200_000,
            ki: 20_000,
            kd: 10_000,
            output_min: 500_000_000_000,
            output_max: 3_100_000_000_000,
            integral_min: -100_000_000i64,
            integral_max: 100_000_000,
        };
        let fv_parameters = pid::Parameters {
            kp: 20_000,
            ki: 1_500,
            kd: 0,
            output_min: 0,
            output_max: 150_000_000_000_000,
            integral_min: -50_000_000_000i64,
            integral_max: 50_000_000_000,
        };
        Controller {
            fbi_target: 0,
            fbi_range: EmissionRange::Med,
            fbi_buffer: 0,
            fbi_buffer_count: 0,
            last_fbi: None,
            fbi_pid: pid::Controller::new(fbi_parameters),
            last_fv_target: None,
            fv_pid: pid::Controller::new(fv_parameters),
            last_fv: None,
            fbv_target: 0,
            last_fbv: None,
        }
    }

    /// Consume one sample tuple. The current-sense sample is compensated
    /// per the active range, pushed into the averaging window (whose mean
    /// is emitted when it fills and the window restarts), and fed to the
    /// outer PID loop; the outer output becomes the inner loop's
    /// filament-voltage setpoint; the inner loop runs on the converted
    /// filament-voltage sample and its output, scaled to raw duty counts
    /// (at most 150), is returned for the filament PWM. The bias sample
    /// is converted and cached for monitoring only.
    pub fn adc_input(
        &mut self,
        fbi_sample: u16,
        fd_sample: u16,
        fv_sample: u16,
        fbv_sample: u16,
    ) -> (fv_duty: u16)
        requires
            old(self).inv(),
            fbi_sample < ADC_SPAN,
            fd_sample < ADC_SPAN,
            fv_sample < ADC_SPAN,
            fbv_sample < ADC_SPAN,
        ensures
            final(self).inv(),
            final(self).fbi_target == old(self).fbi_target,
            final(self).fbv_target == old(self).fbv_target,
            final(self).fbi_range == old(self).fbi_range,
            final(self).fbi_pid == old(self).fbi_pid.spec_after(
                spec_compensated_na(old(self).fbi_range, fbi_sample, fd_sample),
            ),
            final(self).last_fv_target == Some(
                (tdiv(
                    old(self).fbi_pid.spec_output(
                        spec_compensated_na(old(self).fbi_range, fbi_sample, fd_sample),
                    ),
                    1000,
                ) as i64),
            ),
            final(self).fv_pid == old(self).spec_fv_pid_mid(fbi_sample, fd_sample).spec_after(
                spec_fv_nv(fv_sample),
            ),
            fv_duty == tdiv(
                old(self).spec_fv_pid_mid(fbi_sample, fd_sample).spec_output(
                    spec_fv_nv(fv_sample),
                ),
                PICO_PER_UNIT as int,
            ),
            fv_duty <= 150,
            old(self).fbi_buffer_count + 1 == FBI_WINDOW ==> {
                &&& final(self).last_fbi == Some(
                    (tdiv(
                        old(self).fbi_buffer + spec_compensated_na(
                            old(self).fbi_range,
                            fbi_sample,
                            fd_sample,
                        ),
                        FBI_WINDOW as int,
                    ) as i64),
                )
                &&& final(self).fbi_buffer_count == 0
                &&& final(self).fbi_buffer == 0
            },
            old(self).fbi_buffer_count + 1 < FBI_WINDOW ==> {
                &&& final(self).last_fbi == old(self).last_fbi
                &&& final(self).fbi_buffer_count == old(self).fbi_buffer_count + 1
                &&& final(self).fbi_buffer == old(self).fbi_buffer + spec_compensated_na(
                    old(self).fbi_range,
                    fbi_sample,
                    fd_sample,
                )
            },
            final(self).last_fv == Some((spec_fv_nv(fv_sample) as i64)),
            final(self).last_fbv == Some((spec_fbv_nv(fbv_sample) as i64)),
    {
        let fbi_na: i64 = self.compensated_na(fbi_sample, fd_sample);

        self.fbi_buffer = self.fbi_buffer + fbi_na;
        self.fbi_buffer_count = self.fbi_buffer_count + 1;
        if self.fbi_buffer_count == FBI_WINDOW {
            self.last_fbi = Some(div_trunc(self.fbi_buffer, FBI_WINDOW as i64));
            self.fbi_buffer = 0;
            self.fbi_buffer_count = 0;
        }

        let fv_target_pico: i64 = self.fbi_pid.update(fbi_na);
        let fv_target_nv: i64 = div_trunc(fv_target_pico, 1000);
        self.last_fv_target = Some(fv_target_nv);
        self.fv_pid.set_target(fv_target_nv);

        let fv_nv: i64 = (fv_sample as i64) * FV_NV_PER_COUNT;
        let fv_duty_pico: i64 = self.fv_pid.update(fv_nv);
        let fv_duty_wide: i64 = div_trunc(fv_duty_pico, PICO_PER_UNIT);

        self.last_fv = Some(fv_nv);
        let fbv_nv: i64 = (fbv_sample as i64) * FBV_NV_PER_COUNT;
        self.last_fbv = Some(fbv_nv);

        proof {
            assert(self.inv());
        }
        fv_duty_wide as u16
    }

    /// Inner-loop state after the outer loop has retargeted it for this
    /// sample pair but before it consumes the filament-voltage sample.
    pub open spec fn spec_fv_pid_mid(self, fbi_sample: u16, fd_sample: u16) -> pid::Controller {
        pid::Controller {
            target: tdiv(
                self.fbi_pid.spec_output(
                    spec_compensated_na(self.fbi_range, fbi_sample, fd_sample),
                ),
                1000,
            ) as i64,
            ..self.fv_pid
        }
    }

    /// Compensated emission current (nanoamperes) for one sample pair on
    /// the active range.
    fn compensated_na(&self, fbi_sample: u16, fd_sample: u16) -> (na: i64)
        ensures
            na == spec_compensated_na(self.fbi_range, fbi_sample, fd_sample),
            -FBI_NA_SAMPLE_LIMIT <= na <= FBI_NA_SAMPLE_LIMIT,
    {
        let fbi_nv: i64 = ((fbi_sample as i64) - FBI_ADC_OFFSET) * FBI_NV_PER_COUNT;
        let base_na: i64 = div_trunc(fbi_nv, FBI_R225);
        match self.fbi_range {
            EmissionRange::Low => base_na,
            EmissionRange::Med => {
                let fd_nv: i64 = div_trunc(((fd_sample as i64) - FD_ADC_OFFSET) * FD_NV_NUM, FD_NV_DEN);
                base_na + div_trunc(fbi_nv - fd_nv, FBI_R223)
            },
            EmissionRange::High => base_na + div_trunc(fbi_nv - HIGH_RANGE_DIODE_DROP_NV, FBI_R224),
        }
    }

    /// Store the emission-current setpoint, forward it to the outer
    /// loop, select the range for it by the fixed thresholds, and return
    /// the range for the hardware range-select lines. A range change
    /// deliberately clears neither the averaging window nor the loop
    /// integrals — unlike the electrometer's auto-ranging — so a brief
    /// transient follows a switch; a caller needing a clean transition
    /// calls `reset`.
    pub fn set_emission_target(&mut self, nanoamperes: i64) -> (selected: EmissionRange)
        requires
            old(self).inv(),
            -VAL_LIMIT <= nanoamperes <= VAL_LIMIT,
        ensures
            final(self).inv(),
            final(self).fbi_target == nanoamperes,
            final(self).fbi_pid.target == nanoamperes,
            final(self).fbi_pid.integral == old(self).fbi_pid.integral,
            final(self).fbi_pid.last_input == old(self).fbi_pid.last_input,
            final(self).fbi_range == spec_emission_range_for(nanoamperes as int),
            selected == spec_emission_range_for(nanoamperes as int),
            final(self).fbi_buffer == old(self).fbi_buffer,
            final(self).fbi_buffer_count == old(self).fbi_buffer_count,
            final(self).last_fbi == old(self).last_fbi,
            final(self).last_fv_target == old(self).last_fv_target,
            final(self).fv_pid == old(self).fv_pid,
            final(self).last_fv == old(self).last_fv,
            final(self).fbv_target == old(self).fbv_target,
            final(self).last_fbv == old(self).last_fbv,
    {
        self.fbi_target = nanoamperes;
        self.fbi_pid.set_target(nanoamperes);
        self.fbi_range = emission_range_for(nanoamperes);
        self.fbi_range
    }

    /// Store the bias-voltage setpoint and return the open-loop duty
    /// cycle for the bias PWM: the setpoint divided by the fixed linear
    /// PWM gain, saturated to the 16-bit duty register. No feedback
    /// correction is applied.
    pub fn set_bias_target(&mut self, nanovolts: i64) -> (duty: u16)
        requires
            old(self).inv(),
            -VAL_LIMIT <= nanovolts <= VAL_LIMIT,
        ensures
            final(self).inv(),
            *final(self) == (Controller { fbv_target: nanovolts, ..*old(self) }),
            duty == clamp(
                tdiv(nanovolts * FBV_PWM_NV_DEN, FBV_PWM_NV_NUM as int),
                0,
                65535,
            ),
    {
        self.fbv_target = nanovolts;
        let scaled: i64 = nanovolts * FBV_PWM_NV_DEN;
        let duty_wide: i64 = div_trunc(scaled, FBV_PWM_NV_NUM);
        let clamped: i64 = clamp_i64(duty_wide, 0, 65535);
        clamped as u16
    }

    /// Whether the averaged emission current sits within five percent of
    /// the setpoint.
    fn emission_ready(&self) -> (r: bool)
        requires
            self.inv(),
        ensures
            r == self.spec_emission_ready(),
    {
        match self.last_fbi {
            None => false,
            Some(last_fbi) => {
                let deviation: i64 = abs_i64(self.fbi_target - last_fbi);
                let magnitude: i64 = abs_i64(self.fbi_target);
                20 * deviation < magnitude
            },
        }
    }

    /// Whether the bias reading sits within one volt of the setpoint.
    fn bias_ready(&self) -> (r: bool)
        requires
            self.inv(),
        ensures
            r == self.spec_bias_ready(),
    {
        match self.last_fbv {
            None => false,
            Some(last_fbv) => {
                let deviation: i64 = self.fbv_target - last_fbv;
                deviation < BIAS_TOLERANCE_NV && -deviation < BIAS_TOLERANCE_NV
            },
        }
    }

    /// Fault recovery: clear both loop integrals and previous inputs,
    /// the averaging window, and every cached reading, so readiness
    /// reports false until fresh data accumulates.
    pub fn reset(&mut self)
        requires
            old(self).inv(),
        ensures
            final(self).inv(),
            final(self).fbi_pid.integral == 0,
            final(self).fbi_pid.last_input is None,
            final(self).fbi_pid.target == old(self).fbi_pid.target,
            final(self).fv_pid.integral == 0,
            final(self).fv_pid.last_input is None,
            final(self).fv_pid.target == old(self).fv_pid.target,
            final(self).fbi_buffer == 0,
            final(self).fbi_buffer_count == 0,
            final(self).last_fbi is None,
            final(self).last_fv_target is None,
            final(self).last_fv is None,
            final(self).last_fbv is None,
            final(self).fbi_target == old(self).fbi_target,
            final(self).fbv_target == old(self).fbv_target,
            final(self).fbi_range == old(self).fbi_range,
            final(self).spec_ready() == false,
    {
        self.fbi_pid.reset();
        self.fv_pid.reset();
        self.last_fv_target = None;
        self.fbi_buffer = 0;
        self.fbi_buffer_count = 0;
        self.last_fbi = None;
        self.last_fv = None;
        self.last_fbv = None;
    }

    /// Read-only status snapshot: overall readiness and the cached
    /// readings.
    pub fn get_status(&self) -> (status: ControllerStatus)
        requires
            self.inv(),
        ensures
            status.ready == self.spec_ready(),
            status.fbi == self.last_fbi,
            status.fv_target == self.last_fv_target,
            status.fv == self.last_fv,
            status.fbv == self.last_fbv,
    {
        ControllerStatus {
            ready: self.emission_ready() && self.bias_ready(),
            fbi: self.last_fbi,
            fv_target: self.last_fv_target,
            fv: self.last_fv,
            fbv: self.last_fbv,
        }
    }
}

/// Magnitude of a mathematical integer.
pub open spec fn abs_spec(x: int) -> int {
    if x >= 0 {
        x
    } else {
        -x
    }
}


/// Inverting the low-range compensation. Every emission current the
/// classification assigns to the low range maps back, through the
/// inverse of the low-range formula, to an ADC sample inside the
/// converter's span, and compensating that sample reconstructs the
/// current to within one count's worth of current: the low range's
/// designed span covers its whole classification interval.
pub proof fn lemma_low_range_inverse(na: int)
    requires
        0 <= na <= crate::range::EMISSION_MED_THRESHOLD_NA,
    ensures
        ({
            let sample = FBI_ADC_OFFSET + (11 * na) / 375;
            &&& FBI_ADC_OFFSET <= sample <= 4095
            &&& 0 <= na - spec_comp_low((sample - FBI_ADC_OFFSET) * FBI_NV_PER_COUNT) <= 34
        }),
{
    let q = (11 * na) / 375;
    let r = (11 * na) % 375;
    vstd::arithmetic::div_mod::lemma_fundamental_div_mod(11 * na, 375);
    vstd::arithmetic::div_mod::lemma_mod_bound(11 * na, 375);
    vstd::arithmetic::div_mod::lemma_div_pos_is_pos(11 * na, 375);
    vstd::arithmetic::div_mod::lemma_div_is_ordered(11 * na, 1_320_000, 375);
    assert(1_320_000int / 375 == 3520);
    let sample = FBI_ADC_OFFSET + q;
    let v = (sample - FBI_ADC_OFFSET) * FBI_NV_PER_COUNT;
    assert(v == 750_000 * q);
    // scale the division identity up to nanovolt terms
    assert(750_000 * q == 22_000 * na - 2000 * r);
    let z = 2000 * r;
    assert(0 <= z <= 22_000 * na);
    let comp = spec_comp_low(v);
    assert(comp == (22_000 * na - z) / 22_000);
    let m = (22_000 * na - z) % 22_000;
    vstd::arithmetic::div_mod::lemma_fundamental_div_mod(22_000 * na - z, 22_000);
    vstd::arithmetic::div_mod::lemma_mod_bound(22_000 * na - z, 22_000);
    assert(22_000 * (na - comp) == z + m);
    assert(0 <= z + m < 770_000);
    assert(0 <= na - comp <= 34);
}


/// Inverting the high-range compensation. Every emission current the
/// classification assigns to the high range, up to the largest current
/// the converter can represent on that range, maps back to an in-span
/// ADC sample whose compensated reading reconstructs the current to
/// within one count's worth of current on that range: the high range's
/// designed span covers its classification interval.
pub proof fn lemma_high_range_inverse(na: int)
    requires
        crate::range::EMISSION_HIGH_THRESHOLD_NA < na <= 53_963_252,
    ensures
        ({
            let sample = FBI_ADC_OFFSET + (11 * (39 * na + HIGH_RANGE_DIODE_DROP_NV)) / 8_264_625;
            &&& FBI_ADC_OFFSET <= sample <= 4095
            &&& 0 <= na - spec_comp_high((sample - FBI_ADC_OFFSET) * FBI_NV_PER_COUNT) <= 19_268
        }),
{
    let scaled = 11 * (39 * na + HIGH_RANGE_DIODE_DROP_NV);
    let q = scaled / 8_264_625;
    let r1 = scaled % 8_264_625;
    vstd::arithmetic::div_mod::lemma_fundamental_div_mod(scaled, 8_264_625);
    vstd::arithmetic::div_mod::lemma_mod_bound(scaled, 8_264_625);
    vstd::arithmetic::div_mod::lemma_div_is_ordered(13_332_000_429, scaled, 8_264_625);
    vstd::arithmetic::div_mod::lemma_div_is_ordered(scaled, 33_050_235_108, 8_264_625);
    assert(13_332_000_429int / 8_264_625 == 1613);
    assert(33_050_235_108int / 8_264_625 == 3998);
    let sample = FBI_ADC_OFFSET + q;
    let v = (sample - FBI_ADC_OFFSET) * FBI_NV_PER_COUNT;
    assert(v == 750_000 * q);
    assert(v >= 900_000_000);
    let base = v / 22_000;
    let m1 = v % 22_000;
    vstd::arithmetic::div_mod::lemma_fundamental_div_mod(v, 22_000);
    vstd::arithmetic::div_mod::lemma_mod_bound(v, 22_000);
    let shunt = (v - HIGH_RANGE_DIODE_DROP_NV) / 39;
    let m2 = (v - HIGH_RANGE_DIODE_DROP_NV) % 39;
    vstd::arithmetic::div_mod::lemma_fundamental_div_mod(v - HIGH_RANGE_DIODE_DROP_NV, 39);
    vstd::arithmetic::div_mod::lemma_mod_bound(v - HIGH_RANGE_DIODE_DROP_NV, 39);
    let comp = spec_comp_high(v);
    assert(comp == base + shunt);
    // scale the three division identities to a common denominator
    assert(16_529_250_000 * q == 22_000 * (39 * na + HIGH_RANGE_DIODE_DROP_NV) - 2000 * r1);
    assert(858_000 * base == 39 * (750_000 * q - m1));
    assert(858_000 * shunt == 22_000 * (750_000 * q - HIGH_RANGE_DIODE_DROP_NV - m2));
    assert(858_000 * (na - comp) == 2000 * r1 + 39 * m1 + 22_000 * m2);
    assert(0 <= 2000 * r1 + 39 * m1 + 22_000 * m2 < 858_000 * 19_269);
    assert(0 <= na - comp <= 19_268);
}

/// Inverting the medium-range compensation, relative to a diode voltage
/// anywhere between zero and the fixed drop the high range assumes.
/// Every emission current the classification assigns to the medium
/// range maps back to an in-span ADC sample whose compensated reading,
/// against that same diode voltage, reconstructs the current to within
/// one count's worth of current on that range: the medium range's
/// designed span covers its classification interval.
pub proof fn lemma_med_range_inverse(na: int, fd_nv: int)
    requires
        crate::range::EMISSION_MED_THRESHOLD_NA < na <= crate::range::EMISSION_HIGH_THRESHOLD_NA,
        0 <= fd_nv <= HIGH_RANGE_DIODE_DROP_NV,
    ensures
        ({
            let sample = FBI_ADC_OFFSET + (11 * (200 * na + fd_nv)) / 8_325_000;
            &&& FBI_ADC_OFFSET <= sample <= 4095
            &&& 0 <= na - spec_comp_med((sample - FBI_ADC_OFFSET) * FBI_NV_PER_COUNT, fd_nv)
                <= 3786
        }),
{
    let scaled = 11 * (200 * na + fd_nv);
    let q = scaled / 8_325_000;
    let r1 = scaled % 8_325_000;
    vstd::arithmetic::div_mod::lemma_fundamental_div_mod(scaled, 8_325_000);
    vstd::arithmetic::div_mod::lemma_mod_bound(scaled, 8_325_000);
    vstd::arithmetic::div_mod::lemma_div_pos_is_pos(scaled, 8_325_000);
    vstd::arithmetic::div_mod::lemma_div_is_ordered(scaled, 27_500_000_000, 8_325_000);
    assert(27_500_000_000int / 8_325_000 == 3303);
    let sample = FBI_ADC_OFFSET + q;
    let v = (sample - FBI_ADC_OFFSET) * FBI_NV_PER_COUNT;
    assert(v == 750_000 * q);
    let base = v / 22_000;
    let m1 = v % 22_000;
    vstd::arithmetic::div_mod::lemma_fundamental_div_mod(v, 22_000);
    vstd::arithmetic::div_mod::lemma_mod_bound(v, 22_000);
    let diff = v - fd_nv;
    // the shunt difference is nonnegative: the scaled identity puts
    // 8325000 * q at least at 11 * 200 * na - r1, far above 11 * fd_nv
    assert(8_325_000 * q == 2200 * na + 11 * fd_nv - r1);
    assert(111 * v == 8_325_000 * q * 10);
    assert(111 * diff == 22_000 * na + 110 * fd_nv - 10 * r1 - 111 * fd_nv);
    assert(111 * diff >= 22_000 * na - fd_nv - 10 * r1);
    assert(111 * diff >= 0);
    assert(diff >= 0);
    let shunt = diff / 200;
    let m2 = diff % 200;
    vstd::arithmetic::div_mod::lemma_fundamental_div_mod(diff, 200);
    vstd::arithmetic::div_mod::lemma_mod_bound(diff, 200);
    let comp = spec_comp_med(v, fd_nv);
    assert(comp == base + shunt);
    assert(22_000 * base == 750_000 * q - m1);
    assert(22_000 * shunt == 110 * (diff - m2));
    assert(22_000 * (na - comp) == 10 * r1 + m1 + 110 * m2);
    assert(0 <= 10 * r1 + m1 + 110 * m2 < 22_000 * 3787);
    assert(0 <= na - comp <= 3786);
}


/// The cascade's outer loop ramps monotonically: with the compensated
/// emission current frozen at one value, successive outer outputs (the
/// filament-voltage setpoint) never move away from the clamp bound they
/// are heading for — non-decreasing while the current sits below the
/// emission setpoint, non-increasing above it.
pub proof fn lemma_outer_loop_ramps(c: Controller, na: int)
    requires
        c.inv(),
        c.fbi_pid.parameters.integral_min <= c.fbi_pid.integral
            <= c.fbi_pid.parameters.integral_max,
        c.fbi_pid.last_input == Some(na as i64),
        -VAL_LIMIT <= na <= VAL_LIMIT,
    ensures
        c.fbi_target - na >= 0 ==> c.fbi_pid.spec_after(na).spec_output(na)
            >= c.fbi_pid.spec_output(na),
        c.fbi_target - na <= 0 ==> c.fbi_pid.spec_after(na).spec_output(na)
            <= c.fbi_pid.spec_output(na),
{
    pid::lemma_constant_input_ramps(c.fbi_pid, na);
}

/// The cascade's inner loop ramps monotonically in the same way: with
/// the filament voltage frozen at one value, successive inner outputs
/// (the filament PWM duty) move monotonically toward their clamp bound.
pub proof fn lemma_inner_loop_ramps(c: Controller, fv_nv: int)
    requires
        c.inv(),
        c.fv_pid.parameters.integral_min <= c.fv_pid.integral
            <= c.fv_pid.parameters.integral_max,
        c.fv_pid.last_input == Some(fv_nv as i64),
        -VAL_LIMIT <= fv_nv <= VAL_LIMIT,
    ensures
        c.fv_pid.target - fv_nv >= 0 ==> c.fv_pid.spec_after(fv_nv).spec_output(fv_nv)
            >= c.fv_pid.spec_output(fv_nv),
        c.fv_pid.target - fv_nv <= 0 ==> c.fv_pid.spec_after(fv_nv).spec_output(fv_nv)
            <= c.fv_pid.spec_output(fv_nv),
{
    pid::lemma_constant_input_ramps(c.fv_pid, fv_nv);
}

} // verus!
