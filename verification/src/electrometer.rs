//! Auto-ranging electrometer front end for the ion-collector current.
//!
//! Raw ADC samples are classified against fixed thresholds; a debounced
//! run of out-of-range samples switches the transresistance range one
//! step at a time, after which a fixed settling window of samples is
//! discarded. In-range samples are converted to femtoamperes and block
//! averaged: the mean of each full 512-sample block is emitted and the
//! accumulator starts fresh (a non-overlapping block average, not a
//! sliding window).

use vstd::prelude::*;
use crate::tdiv;
use crate::fixed::div_trunc;
use crate::range::ElectrometerRange;

verus! {

/// Raw sample above which the next-larger range becomes a candidate.
pub const IC_HIGH_THRESHOLD: u16 = 3100;

/// Raw sample below which the next-smaller range becomes a candidate.
pub const IC_LOW_THRESHOLD: u16 = 105;

/// Number of consecutive out-of-range samples that triggers a range
/// switch (a single noisy sample must not).
pub const DEBOUNCE_COUNT: u8 = 75;

/// Samples discarded after a range switch while the front-end amplifier
/// settles.
pub const SETTLE_COUNT: u8 = 150;

/// Samples per emitted block average.
pub const BLOCK_SIZE: u16 = 512;

/// Fixed ADC offset subtracted from every raw sample.
pub const IC_ADC_OFFSET: i64 = 96;

/// Femtoamperes per offset-corrected ADC count on the low (1G) range.
pub const IC_FA_PER_COUNT_LOW: i64 = 750;

/// Femtoamperes per offset-corrected ADC count on the medium (1G//10M)
/// range.
pub const IC_FA_PER_COUNT_MED: i64 = 75_750;

/// Femtoamperes per offset-corrected ADC count on the high (1G//100K)
/// range.
pub const IC_FA_PER_COUNT_HIGH: i64 = 7_500_750;

/// Largest magnitude one converted sample can take, used to bound the
/// block accumulator.
pub const IC_FA_SAMPLE_LIMIT: i64 = 500_000_000_000;

/// The electrometer: active range, debounce and settling counters, block
/// accumulator (femtoamperes) with its fill count, and the last emitted
/// block average (absent until a block completes).
pub struct Electrometer {
    pub range: ElectrometerRange,
    pub out_of_range_count: u8,
    pub ignore_count: u8,
    pub ic_buffer: i64,
    pub ic_buffer_count: u16,
    pub last_ic: Option<i64>,
}

/// Read-only snapshot handed to the reporting layer: the last block
/// average in femtoamperes.
#[derive(Clone, Copy)]
pub struct ElectrometerStatus {
    pub ic: Option<i64>,
}

/// Range one step up, if any.
pub open spec fn spec_range_up(range: ElectrometerRange) -> Option<ElectrometerRange> {
    match range {
        ElectrometerRange::Low => Some(ElectrometerRange::Med),
        ElectrometerRange::Med => Some(ElectrometerRange::High),
        ElectrometerRange::High => None,
    }
}

/// Range one step down, if any.
pub open spec fn spec_range_down(range: ElectrometerRange) -> Option<ElectrometerRange> {
    match range {
        ElectrometerRange::Low => None,
        ElectrometerRange::Med => Some(ElectrometerRange::Low),
        ElectrometerRange::High => Some(ElectrometerRange::Med),
    }
}

/// Candidate range for one sample: up when above the high threshold,
/// down when below the low threshold, none otherwise. Transitions move a
/// single step only.
pub open spec fn spec_candidate(range: ElectrometerRange, sample: u16) -> Option<
    ElectrometerRange,
> {
    if sample > IC_HIGH_THRESHOLD {
        spec_range_up(range)
    } else if sample < IC_LOW_THRESHOLD {
        spec_range_down(range)
    } else {
        None
    }
}

/// Femtoamperes per offset-corrected count of the given range.
pub open spec fn spec_gain_fa(range: ElectrometerRange) -> int {
    match range {
        ElectrometerRange::Low => IC_FA_PER_COUNT_LOW as int,
        ElectrometerRange::Med => IC_FA_PER_COUNT_MED as int,
        ElectrometerRange::High => IC_FA_PER_COUNT_HIGH as int,
    }
}

/// One raw sample converted to femtoamperes on the given range.
pub open spec fn spec_sample_fa(range: ElectrometerRange, sample: u16) -> int {
    (sample - IC_ADC_OFFSET) * spec_gain_fa(range)
}

impl Electrometer {
    /// Internal invariant: counters inside their windows and the block
    /// accumulator bounded by its fill count.
    pub open spec fn inv(self) -> bool {
        &&& self.out_of_range_count < DEBOUNCE_COUNT
        &&& self.ignore_count <= SETTLE_COUNT
        &&& self.ic_buffer_count < BLOCK_SIZE
        &&& -(self.ic_buffer_count as int) * IC_FA_SAMPLE_LIMIT <= self.ic_buffer
            <= (self.ic_buffer_count as int) * IC_FA_SAMPLE_LIMIT
    }

    /// State and emitted range command after one sample. The first
    /// component is the successor state, the second the range newly
    /// selected by this sample (to be commanded to the hardware), if any.
    pub open spec fn spec_step(self, sample: u16) -> (Electrometer, Option<ElectrometerRange>) {
        if self.ignore_count > 0 {
            // settling after a range change: discard the sample
            (Electrometer { ignore_count: (self.ignore_count - 1) as u8, ..self }, None)
        } else {
            let candidate = spec_candidate(self.range, sample);
            if candidate is Some {
                if self.out_of_range_count + 1 >= DEBOUNCE_COUNT {
                    // debounce satisfied: switch range, restart the block,
                    // and black out the settling window
                    (
                        Electrometer {
                            range: candidate->Some_0,
                            out_of_range_count: 0,
                            ignore_count: SETTLE_COUNT,
                            ic_buffer: 0,
                            ic_buffer_count: 0,
                            last_ic: None,
                        },
                        candidate,
                    )
                } else {
                    (
                        Electrometer {
                            out_of_range_count: (self.out_of_range_count + 1) as u8,
                            ..self
                        },
                        None,
                    )
                }
            } else {
                let accumulated = self.ic_buffer + spec_sample_fa(self.range, sample);
                if self.ic_buffer_count + 1 == BLOCK_SIZE {
                    (
                        Electrometer {
                            out_of_range_count: 0,
                            ic_buffer: 0,
                            ic_buffer_count: 0,
                            last_ic: Some(tdiv(accumulated, BLOCK_SIZE as int) as i64),
                            ..self
                        },
                        None,
                    )
                } else {
                    (
                        Electrometer {
                            out_of_range_count: 0,
                            ic_buffer: accumulated as i64,
                            ic_buffer_count: (self.ic_buffer_count + 1) as u16,
                            ..self
                        },
                        None,
                    )
                }
            }
        }
    }

    /// A fresh electrometer: medium range, all counters clear, no
    /// reading yet.
    pub fn new() -> (e: Electrometer)
        ensures
            e.inv(),
            e.range == ElectrometerRange::Med,
            e.out_of_range_count == 0,
            e.ignore_count == 0,
            e.ic_buffer == 0,
            e.ic_buffer_count == 0,
            e.last_ic is None,
    {
        Electrometer {
            range: ElectrometerRange::Med,
            out_of_range_count: 0,
            ignore_count: 0,
            ic_buffer: 0,
            ic_buffer_count: 0,
            last_ic: None,
        }
    }

    /// Consume one raw ion-current sample, stepping the hysteresis
    /// machine exactly as `spec_step` says: settling samples are
    /// discarded; an out-of-range sample extends the debounce run and, on
    /// the run reaching its threshold, switches the range one step and
    /// returns the new range for the hardware range-select lines; an
    /// in-range sample resets the run and feeds the block average.
    pub fn adc_input(&mut self, ic_sample: u16) -> (changed: Option<ElectrometerRange>)
        requires
            old(self).inv(),
        ensures
            final(self).inv(),
            (*final(self), changed) == old(self).spec_step(ic_sample),
    {
        if self.ignore_count > 0 {
            self.ignore_count = self.ignore_count - 1;
            return None;
        }
        let candidate: Option<ElectrometerRange> = if ic_sample > IC_HIGH_THRESHOLD {
            match self.range {
                ElectrometerRange::Low => Some(ElectrometerRange::Med),
                ElectrometerRange::Med => Some(ElectrometerRange::High),
                ElectrometerRange::High => None,
            }
        } else if ic_sample < IC_LOW_THRESHOLD {
            match self.range {
                ElectrometerRange::Low => None,
                ElectrometerRange::Med => Some(ElectrometerRange::Low),
                ElectrometerRange::High => Some(ElectrometerRange::Med),
            }
        } else {
            None
        };

        match candidate {
            Some(new_range) => {
                if self.out_of_range_count + 1 >= DEBOUNCE_COUNT {
                    self.range = new_range;
                    self.out_of_range_count = 0;
                    self.ignore_count = SETTLE_COUNT;
                    self.ic_buffer = 0;
                    self.ic_buffer_count = 0;
                    self.last_ic = None;
                    Some(new_range)
                } else {
                    self.out_of_range_count = self.out_of_range_count + 1;
                    None
                }
            },
            None => {
                self.out_of_range_count = 0;
                let gain: i64 = match self.range {
                    ElectrometerRange::Low => IC_FA_PER_COUNT_LOW,
                    ElectrometerRange::Med => IC_FA_PER_COUNT_MED,
                    ElectrometerRange::High => IC_FA_PER_COUNT_HIGH,
                };
                let corrected: i64 = (ic_sample as i64) - IC_ADC_OFFSET;
                proof {
                    assert(-IC_FA_SAMPLE_LIMIT <= corrected * gain <= IC_FA_SAMPLE_LIMIT)
                        by (nonlinear_arith)
                        requires
                            -96 <= corrected <= 65535,
                            0 < gain <= IC_FA_PER_COUNT_HIGH,
                    ;
                }
                let sample_fa: i64 = corrected * gain;
                self.ic_buffer = self.ic_buffer + sample_fa;
                self.ic_buffer_count = self.ic_buffer_count + 1;
                if self.ic_buffer_count == BLOCK_SIZE {
                    self.last_ic = Some(div_trunc(self.ic_buffer, BLOCK_SIZE as i64));
                    self.ic_buffer = 0;
                    self.ic_buffer_count = 0;
                }
                None
            },
        }
    }

    /// Read-only snapshot: the last emitted block average.
    pub fn get_status(&self) -> (status: ElectrometerStatus)
        ensures
            status.ic == self.last_ic,
    {
        ElectrometerStatus { ic: self.last_ic }
    }
}

} // verus!
