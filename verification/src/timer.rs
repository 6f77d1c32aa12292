//! Monotonic microsecond time source and deadline tracking.
//!
//! The timer is a software counter that the host advances; on hardware the
//! same record wraps a cycle counter through the `ticks_per_us` scaling
//! factor. Wraparound of the 64-bit counter is counted, never an error.

use vstd::prelude::*;

verus! {

/// Monotonic microsecond counter with overflow accounting.
pub struct SysTimer {
    /// Current tick count in microseconds.
    pub ticks_us: u64,
    /// Hardware ticks per microsecond (scaling factor; unused by the
    /// scheduler's logic but exposed for wall-clock conversion).
    pub ticks_per_us: u32,
    /// How many times `advance` wrapped the 64-bit counter
    /// (wraps at 2^32 itself).
    pub overflows: u32,
}

impl SysTimer {
    /// A timer scaled for a hardware clock of `clock_hz` hertz.
    pub fn new(clock_hz: u32) -> (t: SysTimer)
        ensures
            t.ticks_us == 0,
            t.ticks_per_us == clock_hz / 1_000_000,
            t.overflows == 0,
    {
        SysTimer { ticks_us: 0, ticks_per_us: clock_hz / 1_000_000, overflows: 0 }
    }

    /// A software timer for tests: one tick per microsecond.
    pub fn software() -> (t: SysTimer)
        ensures
            t.ticks_us == 0,
            t.ticks_per_us == 1,
            t.overflows == 0,
    {
        SysTimer { ticks_us: 0, ticks_per_us: 1, overflows: 0 }
    }

    /// Advance time by `us` microseconds, wrapping modulo 2^64; the
    /// overflow counter steps exactly when the addition wraps.
    pub fn advance(&mut self, us: u64)
        ensures
            final(self).ticks_us == old(self).ticks_us.wrapping_add(us),
            final(self).overflows == (if old(self).ticks_us + us > u64::MAX {
                old(self).overflows.wrapping_add(1u32)
            } else {
                old(self).overflows
            }),
            final(self).ticks_per_us == old(self).ticks_per_us,
    {
        let new = self.ticks_us.wrapping_add(us);
        if new < self.ticks_us {
            self.overflows = self.overflows.wrapping_add(1);
        }
        self.ticks_us = new;
    }

    /// Current time in microseconds.
    pub fn now_us(&self) -> (r: u64)
        ensures
            r == self.ticks_us,
    {
        self.ticks_us
    }

    /// Current time in whole milliseconds (floor).
    pub fn now_ms(&self) -> (r: u64)
        ensures
            r == self.ticks_us / 1000,
    {
        self.ticks_us / 1000
    }

    /// Zero the counter and the overflow count.
    pub fn reset(&mut self)
        ensures
            final(self).ticks_us == 0,
            final(self).overflows == 0,
            final(self).ticks_per_us == old(self).ticks_per_us,
    {
        self.ticks_us = 0;
        self.overflows = 0;
    }

    /// The scaling factor this timer was made with.
    pub fn ticks_per_us(&self) -> (r: u32)
        ensures
            r == self.ticks_per_us,
    {
        self.ticks_per_us
    }

    /// How many times the counter has wrapped.
    pub fn overflows(&self) -> (r: u32)
        ensures
            r == self.overflows,
    {
        self.overflows
    }

    /// Microseconds since `reference`, modulo 2^64.
    pub fn elapsed_since(&self, reference: u64) -> (r: u64)
        ensures
            r == self.ticks_us.wrapping_sub(reference),
    {
        self.ticks_us.wrapping_sub(reference)
    }

    /// Busy-wait substitute for the software timer: advances by `us`.
    pub fn delay_us(&mut self, us: u64)
        ensures
            final(self).ticks_us == old(self).ticks_us.wrapping_add(us),
            final(self).overflows == (if old(self).ticks_us + us > u64::MAX {
                old(self).overflows.wrapping_add(1u32)
            } else {
                old(self).overflows
            }),
            final(self).ticks_per_us == old(self).ticks_per_us,
    {
        self.advance(us);
    }
}

/// A deadline for one activation of a periodic task: it starts at `start`
/// and is due one period later.
pub struct Deadline {
    /// Activation time in microseconds.
    pub start: u64,
    /// Absolute deadline: `start + period_us`.
    pub deadline: u64,
}

impl Deadline {
    /// Track the activation that starts at `start` with period `period_us`.
    pub fn new(start: u64, period_us: u32) -> (d: Deadline)
        requires
            start + period_us <= u64::MAX,
        ensures
            d.start == start,
            d.deadline == start + period_us,
    {
        Deadline { start, deadline: start + period_us as u64 }
    }

    /// Whether the deadline is met at time `current`.
    pub fn is_met(&self, current: u64) -> (r: bool)
        ensures
            r == (current <= self.deadline),
    {
        current <= self.deadline
    }

    /// Time left until the deadline; zero once it has passed.
    pub fn remaining(&self, current: u64) -> (r: u64)
        ensures
            r == (if current >= self.deadline {
                0int
            } else {
                self.deadline - current
            }),
    {
        if current >= self.deadline {
            0
        } else {
            self.deadline - current
        }
    }

    /// Microseconds since the activation started, modulo 2^64.
    pub fn elapsed(&self, current: u64) -> (r: u64)
        ensures
            r == current.wrapping_sub(self.start),
    {
        current.wrapping_sub(self.start)
    }
}

} // verus!
