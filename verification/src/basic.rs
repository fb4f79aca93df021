//! Basic timers.

use vstd::prelude::*;

use crate::config::{MasterModeSelection, ValueError};
use crate::mcu::{has_basic_timers, Clocks, Mcu};
use crate::registers::{Field, Reg, Registers};
use crate::timer::freq_set;

verus! {

/// Represents a Basic timer, used primarily to trigger the onboard DAC. Eg Tim6 or Tim7.
pub struct BasicTimer {
    /// Image of the registers of the timer.
    pub regs: Registers,
    /// Associated timer clock speed in Hz.
    pub clock_speed: u32,
}

impl BasicTimer {
    /// Initialize a Basic timer whose peripheral clock has been enabled and reset. `vals` holds
    /// the prescaler and the auto-reload value for the frequency that the timer is to have;
    /// where there are none, the frequency is left as it is.
    pub fn new(
        regs: Registers,
        mcu: Mcu,
        vals: Result<(u16, u16), ValueError>,
        clock_cfg: &Clocks,
    ) -> (timer: BasicTimer)
        requires
            has_basic_timers(mcu),
        ensures
            timer.regs@ == freq_set(regs@, vals),
            timer.clock_speed == clock_cfg.apb1_timer,
    {
        let mut result = BasicTimer { regs, clock_speed: clock_cfg.apb1_timer };
        let _ = result.set_freq(vals);
        result
    }

    /// Enable the timer.
    pub fn enable(&mut self)
        ensures
            final(self).regs@ == old(self).regs@.set(Field::Cen, 1),
            final(self).clock_speed == old(self).clock_speed,
    {
        self.regs.set(Field::Cen, 1);
    }

    /// Disable the timer.
    pub fn disable(&mut self)
        ensures
            final(self).regs@ == old(self).regs@.set(Field::Cen, 0),
            final(self).clock_speed == old(self).clock_speed,
    {
        self.regs.set(Field::Cen, 0);
    }

    /// Check if the timer is enabled.
    pub fn is_enabled(&self) -> (enabled: bool)
        ensures
            enabled == (self.regs@.field(Field::Cen) != 0),
    {
        self.regs.field(Field::Cen) != 0
    }

    /// Set the timer frequency by the prescaler and the auto-reload value chosen for it.
    /// Overrides the period or frequency set in the constructor. If changing frequency
    /// frequently, use `set_auto_reload` and `set_prescaler` instead.
    pub fn set_freq(&mut self, vals: Result<(u16, u16), ValueError>) -> (result: Result<
        (),
        ValueError,
    >)
        ensures
            result is Ok <==> vals is Ok,
            final(self).regs@ == freq_set(old(self).regs@, vals),
            final(self).clock_speed == old(self).clock_speed,
    {
        match vals {
            Ok((psc, arr)) => {
                self.regs.write(Reg::Arr, arr as u32);
                self.regs.write(Reg::Psc, psc as u32);
                Ok(())
            },
            Err(error) => Err(error),
        }
    }

    /// Return the integer associated with the maximum duty period.
    pub fn get_max_duty(&self) -> (max: u16)
        ensures
            max == self.regs@.get(Reg::Arr) % 0x1_0000,
    {
        (self.regs.get(Reg::Arr) % 0x1_0000) as u16
    }

    /// Set the auto-reload register value. Used for adjusting frequency.
    pub fn set_auto_reload(&mut self, arr: u16)
        ensures
            final(self).regs@ == old(self).regs@.write(Reg::Arr, arr as u32),
            final(self).clock_speed == old(self).clock_speed,
    {
        self.regs.write(Reg::Arr, arr as u32);
    }

    /// Set the prescaler value. Used for adjusting frequency.
    pub fn set_prescaler(&mut self, psc: u16)
        ensures
            final(self).regs@ == old(self).regs@.write(Reg::Psc, psc as u32),
            final(self).clock_speed == old(self).clock_speed,
    {
        self.regs.write(Reg::Psc, psc as u32);
    }

    /// Reset the count; set the counter to 0.
    pub fn reset_count(&mut self)
        ensures
            final(self).regs@ == old(self).regs@.write(Reg::Cnt, 0),
            final(self).clock_speed == old(self).clock_speed,
    {
        self.regs.write(Reg::Cnt, 0);
    }

    /// Read the current counter value.
    pub fn read_count(&self) -> (count: u16)
        ensures
            count == self.regs@.get(Reg::Cnt) % 0x1_0000,
    {
        (self.regs.get(Reg::Cnt) % 0x1_0000) as u16
    }

    /// Allow selected information to be sent in master mode to slave timers for
    /// synchronization (TRGO).
    pub fn set_mastermode(&mut self, mode: MasterModeSelection)
        ensures
            final(self).regs@ == old(self).regs@.set(Field::Mms, mode.code()),
            final(self).clock_speed == old(self).clock_speed,
    {
        self.regs.set(Field::Mms, mode.code());
    }
}

} // verus!
