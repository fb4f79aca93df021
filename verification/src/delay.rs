//! Delays that a timer measures.

use vstd::prelude::*;

use crate::config::ValueError;
use crate::registers::{Field, Reg};
use crate::timer::{freq_set, Timer};

verus! {

/// The microseconds in a number of milliseconds.
pub fn millis_to_micros(ms: u32) -> (us: u32)
    requires
        ms * 1_000 <= u32::MAX,
    ensures
        us == ms * 1_000,
{
    ms * 1_000
}

impl Timer {
    /// Starts a delay: the frequency is set by `vals`, or left where there are none, the
    /// counter is reset, and the timer enabled. `poll_delay` tells when the delay is over.
    pub fn begin_delay(&mut self, vals: Result<(u16, u16), ValueError>)
        ensures
            final(self).regs@ == freq_set(old(self).regs@, vals).write(Reg::Cnt, 0).set(
                Field::Cen,
                1,
            ),
            final(self).same_but_regs(old(self)),
    {
        let _ = self.set_freq(vals);
        self.reset_count();
        self.enable();
    }

    /// Whether a delay is over, given that the counter has been loaded: it is when the counter
    /// is at 0. The timer is then disabled; before that nothing changes.
    pub fn poll_delay(&mut self) -> (over: bool)
        ensures
            over == (old(self).regs@.get(Reg::Cnt) == 0),
            over ==> final(self).regs@ == old(self).regs@.set(Field::Cen, 0),
            !over ==> final(self).regs@ == old(self).regs@,
            final(self).same_but_regs(old(self)),
    {
        if self.read_count() != 0 {
            return false;
        }
        self.disable();
        true
    }
}

} // verus!
