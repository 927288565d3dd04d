//! Fault-latch coordinator.
//!
//! The protection hardware sets a sticky latch when any of its
//! comparators trips. Each control-plane tick the coordinator is polled
//! with the latch state and the current time: on first observing the
//! latch it schedules a recovery a fixed delay ahead; if the latch is
//! still set once the deadline has passed it clears both regulators'
//! accumulated loop state (a latched fault leaves a large integral error
//! that would cause a post-recovery overshoot) and asks the caller to
//! pulse the hardware latch reset. While the latch reads clear, a
//! pending deadline is deliberately left pending.

use vstd::prelude::*;
use crate::loop_anode;
use crate::loop_cathode;

verus! {

/// Delay (milliseconds) between observing the latch and recovering.
pub const RESET_DELAY_MS: u64 = 5000;

/// The coordinator: no deadline while the latch has not been observed,
/// or the scheduled recovery time.
pub struct FaultMonitor {
    pub deadline: Option<u64>,
}

impl FaultMonitor {
    /// A fresh coordinator with no recovery scheduled.
    pub fn new() -> (m: FaultMonitor)
        ensures
            m.deadline is None,
    {
        FaultMonitor { deadline: None }
    }

    /// Whether this poll performs the recovery: the latch is set, a
    /// deadline is scheduled, and the time has passed it.
    pub open spec fn spec_recovers(self, latched: bool, now_ms: u64) -> bool {
        latched && match self.deadline {
            Some(deadline) => now_ms > deadline,
            None => false,
        }
    }

    /// Coordinator state after one poll: scheduling on first observing
    /// the latch, clearing on recovery, otherwise unchanged.
    pub open spec fn spec_after(self, latched: bool, now_ms: u64) -> FaultMonitor {
        if latched {
            match self.deadline {
                None => FaultMonitor { deadline: Some((now_ms + RESET_DELAY_MS) as u64) },
                Some(deadline) => if now_ms > deadline {
                    FaultMonitor { deadline: None }
                } else {
                    self
                },
            }
        } else {
            self
        }
    }

    /// One control-plane poll. When recovery is due, both regulators'
    /// integral state and previous inputs are cleared (their setpoints
    /// survive), their readiness drops to false until fresh samples
    /// arrive, and the returned flag tells the caller to pulse the
    /// hardware latch reset and to write the anode regulator's fail-safe
    /// zero duty to the high-voltage PWM. On any other poll neither
    /// regulator is touched.
    pub fn poll(
        &mut self,
        latched: bool,
        now_ms: u64,
        anode: &mut loop_anode::Controller,
        cathode: &mut loop_cathode::Controller,
    ) -> (recovered: bool)
        requires
            now_ms <= u64::MAX - RESET_DELAY_MS,
            old(anode).inv(),
            old(cathode).inv(),
        ensures
            final(anode).inv(),
            final(cathode).inv(),
            recovered == old(self).spec_recovers(latched, now_ms),
            *final(self) == old(self).spec_after(latched, now_ms),
            recovered ==> {
                &&& final(anode).pid.integral == 0
                &&& final(anode).pid.last_input is None
                &&& final(anode).last_av is None
                &&& final(anode).spec_ready() == false
                &&& final(anode).target == old(anode).target
                &&& final(cathode).fbi_pid.integral == 0
                &&& final(cathode).fbi_pid.last_input is None
                &&& final(cathode).fv_pid.integral == 0
                &&& final(cathode).fv_pid.last_input is None
                &&& final(cathode).fbi_buffer_count == 0
                &&& final(cathode).last_fbi is None
                &&& final(cathode).last_fv_target is None
                &&& final(cathode).last_fv is None
                &&& final(cathode).last_fbv is None
                &&& final(cathode).spec_ready() == false
                &&& final(cathode).fbi_target == old(cathode).fbi_target
                &&& final(cathode).fbv_target == old(cathode).fbv_target
                &&& final(cathode).fbi_range == old(cathode).fbi_range
            },
            !recovered ==> {
                &&& *final(anode) == *old(anode)
                &&& *final(cathode) == *old(cathode)
            },
    {
        if latched {
            match self.deadline {
                None => {
                    self.deadline = Some(now_ms + RESET_DELAY_MS);
                    false
                },
                Some(deadline) => {
                    if now_ms > deadline {
                        self.deadline = None;
                        let _fail_safe_duty: u16 = anode.reset();
                        cathode.reset();
                        true
                    } else {
                        false
                    }
                },
            }
        } else {
            false
        }
    }
}

} // verus!
