//! The three-step gain ranges of the two current front ends.
//!
//! Each range selects a resistor/diode network in the hardware; the
//! library only decides which range is active and hands the choice to the
//! actuation layer as a value of one of these enums.

use vstd::prelude::*;

verus! {

/// Shunt network feeding the emission-current sense amplifier.
#[derive(Clone, Copy, PartialEq, Eq, Structural, Debug)]
pub enum EmissionRange {
    /// 22K alone.
    Low,
    /// 22K in parallel with 200R and a compensated diode.
    Med,
    /// 22K in parallel with 39R and an uncompensated diode.
    High,
}

/// Transresistance of the ion-collector electrometer.
#[derive(Clone, Copy, PartialEq, Eq, Structural, Debug)]
pub enum ElectrometerRange {
    /// 1G alone.
    Low,
    /// 1G in parallel with 10M.
    Med,
    /// 1G in parallel with 100K.
    High,
}

/// Emission-current setpoint (nanoamperes) above which the medium range
/// is selected.
pub const EMISSION_MED_THRESHOLD_NA: i64 = 120_000;

/// Emission-current setpoint (nanoamperes) above which the high range is
/// selected.
pub const EMISSION_HIGH_THRESHOLD_NA: i64 = 8_000_000;

/// Range selected for an emission-current setpoint, by the fixed
/// thresholds above.
pub open spec fn spec_emission_range_for(na: int) -> EmissionRange {
    if na > EMISSION_HIGH_THRESHOLD_NA {
        EmissionRange::High
    } else if na > EMISSION_MED_THRESHOLD_NA {
        EmissionRange::Med
    } else {
        EmissionRange::Low
    }
}

/// Order of the emission ranges from smallest to largest current span.
pub open spec fn spec_emission_range_rank(range: EmissionRange) -> int {
    match range {
        EmissionRange::Low => 0,
        EmissionRange::Med => 1,
        EmissionRange::High => 2,
    }
}

/// Pick the range for an emission-current setpoint in nanoamperes.
pub fn emission_range_for(na: i64) -> (range: EmissionRange)
    ensures
        range == spec_emission_range_for(na as int),
{
    if na > EMISSION_HIGH_THRESHOLD_NA {
        EmissionRange::High
    } else if na > EMISSION_MED_THRESHOLD_NA {
        EmissionRange::Med
    } else {
        EmissionRange::Low
    }
}

/// Range classification is monotonic in the physical current: a larger
/// setpoint never selects a smaller range.
pub proof fn lemma_emission_range_monotone(a: int, b: int)
    requires
        a <= b,
    ensures
        spec_emission_range_rank(spec_emission_range_for(a))
            <= spec_emission_range_rank(spec_emission_range_for(b)),
{
}

/// Every current value selects exactly one range: the three classification
/// intervals partition the line at the two fixed thresholds.
pub proof fn lemma_emission_range_partition(na: int)
    ensures
        spec_emission_range_for(na) is Low <==> na <= EMISSION_MED_THRESHOLD_NA,
        spec_emission_range_for(na) is Med
            <==> EMISSION_MED_THRESHOLD_NA < na <= EMISSION_HIGH_THRESHOLD_NA,
        spec_emission_range_for(na) is High <==> na > EMISSION_HIGH_THRESHOLD_NA,
{
}

} // verus!
