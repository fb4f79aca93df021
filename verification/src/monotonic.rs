//! A timer as the time base of a task scheduler.

use vstd::prelude::*;

use crate::instant::Instant;
use crate::registers::{Field, Reg};
use crate::timer::{MonotonicState, Timer};

verus! {

impl Timer {
    /// Sets the instant of the next compare event.
    pub fn set_compare(&mut self, instant: Instant)
        ensures
            final(self).monotonic == (MonotonicState {
                compare_inst: instant,
                ..old(self).monotonic
            }),
            final(self).regs@ == old(self).regs@,
            final(self).cfg == old(self).cfg,
            final(self).peripheral == old(self).peripheral,
    {
        self.monotonic.compare_inst = instant;
    }

    /// Forgets a latched compare event.
    pub fn clear_compare_flag(&mut self)
        ensures
            final(self).monotonic == (MonotonicState {
                compare_latched: false,
                ..old(self).monotonic
            }),
            final(self).regs@ == old(self).regs@,
            final(self).cfg == old(self).cfg,
            final(self).peripheral == old(self).peripheral,
    {
        self.monotonic.compare_latched = false;
    }

    /// The instant at which the timer starts.
    pub fn zero() -> (zero: Instant)
        ensures
            zero.count_us == 0,
    {
        Instant::default()
    }

    /// Resets the counter, for a fixed baseline.
    pub fn reset(&mut self)
        ensures
            final(self).regs@ == old(self).regs@.write(Reg::Cnt, 0),
            final(self).same_but_regs(old(self)),
    {
        self.reset_count();
    }

    /// Counts one more wrap-around of the counter.
    pub fn on_interrupt(&mut self)
        requires
            old(self).monotonic.wrap_count < u32::MAX,
        ensures
            final(self).monotonic == (MonotonicState {
                wrap_count: (old(self).monotonic.wrap_count + 1) as u32,
                ..old(self).monotonic
            }),
            final(self).regs@ == old(self).regs@,
            final(self).cfg == old(self).cfg,
            final(self).peripheral == old(self).peripheral,
    {
        self.monotonic.wrap_count = self.monotonic.wrap_count + 1;
    }

    /// Enables the timer when its interrupt is enabled.
    pub fn enable_timer(&mut self)
        ensures
            final(self).regs@ == old(self).regs@.set(Field::Cen, 1),
            final(self).same_but_regs(old(self)),
    {
        self.enable();
    }

    /// Disables the timer when its interrupt is disabled.
    pub fn disable_timer(&mut self)
        ensures
            final(self).regs@ == old(self).regs@.set(Field::Cen, 0),
            final(self).same_but_regs(old(self)),
    {
        self.disable();
    }
}

} // verus!
