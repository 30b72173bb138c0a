//! Frame timing: elapsed time accumulates, in nanoseconds, into a
//! once-a-second and a four-times-a-second update.
use vstd::prelude::*;

verus! {

pub const NANOS_PER_SEC: u64 = 1_000_000_000;

/// The period of the fast update: 250 ms.
pub const FAST_PERIOD_NANOS: u64 = 250_000_000;

pub open spec fn sat_add(a: u64, b: u64) -> u64 {
    if a + b > u64::MAX {
        u64::MAX
    } else {
        (a + b) as u64
    }
}

/// An accumulator after `delta` more time: past `period`, one period is
/// taken off and the update fires.
pub open spec fn accumulate(acc: u64, delta: u64, period: u64) -> (u64, bool) {
    let a = sat_add(acc, delta);
    if a > period {
        ((a - period) as u64, true)
    } else {
        (a, false)
    }
}

pub struct FrameClock {
    pub delta_accum_secs: u64,
    pub delta_accum_fast: u64,
    pub runtime_secs: u64,
    pub is_per_sec_update: bool,
    pub is_fast_update: bool,
}

fn add_sat(a: u64, b: u64) -> (r: u64)
    ensures
        r == sat_add(a, b),
{
    if a > u64::MAX - b {
        u64::MAX
    } else {
        a + b
    }
}

impl FrameClock {
    pub fn new() -> (r: FrameClock)
        ensures
            r.delta_accum_secs == 0 && r.delta_accum_fast == 0 && r.runtime_secs == 0,
            !r.is_per_sec_update && !r.is_fast_update,
    {
        FrameClock {
            delta_accum_secs: 0,
            delta_accum_fast: 0,
            runtime_secs: 0,
            is_per_sec_update: false,
            is_fast_update: false,
        }
    }

    /// Adds the time since the last frame. Each accumulator past its period
    /// gives up one period and raises its update flag; a second passed also
    /// counts towards the running time. Flags already raised stay raised.
    pub fn update_delta(&mut self, delta_nanos: u64)
        ensures
            final(self).delta_accum_secs == accumulate(
                old(self).delta_accum_secs,
                delta_nanos,
                NANOS_PER_SEC,
            ).0,
            final(self).is_per_sec_update == (old(self).is_per_sec_update || accumulate(
                old(self).delta_accum_secs,
                delta_nanos,
                NANOS_PER_SEC,
            ).1),
            final(self).delta_accum_fast == accumulate(
                old(self).delta_accum_fast,
                delta_nanos,
                FAST_PERIOD_NANOS,
            ).0,
            final(self).is_fast_update == (old(self).is_fast_update || accumulate(
                old(self).delta_accum_fast,
                delta_nanos,
                FAST_PERIOD_NANOS,
            ).1),
            final(self).runtime_secs == if accumulate(
                old(self).delta_accum_secs,
                delta_nanos,
                NANOS_PER_SEC,
            ).1 {
                sat_add(old(self).runtime_secs, 1)
            } else {
                old(self).runtime_secs
            },
    {
        self.delta_accum_secs = add_sat(self.delta_accum_secs, delta_nanos);
        if self.delta_accum_secs > NANOS_PER_SEC {
            self.delta_accum_secs = self.delta_accum_secs - NANOS_PER_SEC;
            self.runtime_secs = add_sat(self.runtime_secs, 1);
            self.is_per_sec_update = true;
        }
        self.delta_accum_fast = add_sat(self.delta_accum_fast, delta_nanos);
        if self.delta_accum_fast > FAST_PERIOD_NANOS {
            self.delta_accum_fast = self.delta_accum_fast - FAST_PERIOD_NANOS;
            self.is_fast_update = true;
        }
    }

    /// At the end of a frame: both updates have run.
    pub fn end_frame(&mut self)
        ensures
            !final(self).is_per_sec_update && !final(self).is_fast_update,
            final(self).delta_accum_secs == old(self).delta_accum_secs,
            final(self).delta_accum_fast == old(self).delta_accum_fast,
            final(self).runtime_secs == old(self).runtime_secs,
    {
        self.is_per_sec_update = false;
        self.is_fast_update = false;
    }
}

} // verus!
