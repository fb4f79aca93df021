//! General purpose and advanced control timers.

use vstd::prelude::*;

use crate::channel::{has_channel, has_complementary, mode_change};
use crate::config::{
    flag, Alignment, CaptureCompare, InputSlaveMode, InputTrigger, OutputCompare, Polarity,
    TimChannel, TimerConfig, TimerInterrupt, ValueError,
};
use crate::instant::Instant;
use crate::mcu::{
    apb_of, channels_of, resolution_of, timer_layout, Channels, Clocks, Family, Mcu, Resolution,
    TimerId,
};
use crate::registers::{Change, Field, Reg, RegState, Registers};

verus! {

/// Which timer of which microcontroller a `Timer` drives, and its clock.
#[derive(Clone, Copy, Debug, PartialEq, Eq, Structural)]
pub struct Peripheral {
    pub mcu: Mcu,
    pub id: TimerId,
    /// Associated timer clock speed in Hz.
    pub clock_speed: u32,
}

impl Peripheral {
    pub open spec fn spec_channels(self) -> Channels {
        channels_of(self.mcu, self.id)
    }

    /// The number of channels of the timer.
    #[verifier::when_used_as_spec(spec_channels)]
    pub fn channels(self) -> (channels: Channels)
        ensures
            channels == self.spec_channels(),
    {
        channels_of(self.mcu, self.id)
    }

    pub open spec fn spec_has(self, channel: TimChannel) -> bool {
        has_channel(self.mcu, self.channels(), channel)
    }

    /// Whether the timer has a channel.
    #[verifier::when_used_as_spec(spec_has)]
    pub fn has(self, channel: TimChannel) -> (has: bool)
        ensures
            has == self.spec_has(channel),
    {
        has_channel(self.mcu, self.channels(), channel)
    }

    pub open spec fn spec_max_value(self) -> u32 {
        resolution_of(self.id).max()
    }

    /// The largest duty and auto-reload value of the timer's resolution.
    #[verifier::when_used_as_spec(spec_max_value)]
    pub fn max_value(self) -> (max: u32)
        ensures
            max == self.spec_max_value(),
    {
        resolution_of(self.id).max()
    }

    /// The duty or auto-reload value in a register: as many bits as the resolution has.
    pub open spec fn value_in(self, word: u32) -> u32 {
        match resolution_of(self.id) {
            Resolution::Bits16 => word % 0x1_0000,
            Resolution::Bits32 => word,
        }
    }

    pub open spec fn spec_is_readable(self, word: u32) -> bool {
        self.mcu.family() == Family::G0 || self.channels() == Channels::Two ==> word
            <= self.max_value()
    }

    /// Whether a duty or auto-reload value can be read out of a register. Of timers on the G0
    /// family and of two-channel timers the whole register is taken, and has to fit into the
    /// resolution.
    #[verifier::when_used_as_spec(spec_is_readable)]
    pub fn is_readable(self, word: u32) -> (readable: bool)
        ensures
            readable == self.spec_is_readable(word),
    {
        if self.mcu.family() == Family::G0 || self.channels() == Channels::Two {
            word <= self.max_value()
        } else {
            true
        }
    }

    fn read_value(self, word: u32) -> (value: u32)
        ensures
            value == self.value_in(word),
    {
        match resolution_of(self.id) {
            Resolution::Bits16 => word % 0x1_0000,
            Resolution::Bits32 => word,
        }
    }

    pub open spec fn spec_can_set_duty(self) -> bool {
        !(self.mcu.family() == Family::G0 && self.channels() == Channels::Two)
    }

    /// Whether the duty can be set: it cannot on the two-channel timers of the G0 family.
    #[verifier::when_used_as_spec(spec_can_set_duty)]
    pub fn can_set_duty(self) -> (can: bool)
        ensures
            can == self.spec_can_set_duty(),
    {
        !(self.mcu.family() == Family::G0 && self.channels() == Channels::Two)
    }

    pub open spec fn spec_can_enable(self, interrupt: TimerInterrupt) -> bool {
        interrupt == TimerInterrupt::Update || (interrupt == TimerInterrupt::UpdateDma
            && self.mcu.family() != Family::F3)
    }

    /// Whether an interrupt can be enabled and disabled: the update interrupt, and the update
    /// DMA request except on the F3 family.
    #[verifier::when_used_as_spec(spec_can_enable)]
    pub fn can_enable(self, interrupt: TimerInterrupt) -> (can: bool)
        ensures
            can == self.spec_can_enable(interrupt),
    {
        match interrupt {
            TimerInterrupt::Update => true,
            TimerInterrupt::UpdateDma => self.mcu.family() != Family::F3,
            _ => false,
        }
    }
}

/// The field of the DIER register that enables an interrupt.
pub open spec fn interrupt_field(interrupt: TimerInterrupt) -> Field
    recommends
        interrupt == TimerInterrupt::Update || interrupt == TimerInterrupt::UpdateDma,
{
    if interrupt == TimerInterrupt::Update {
        Field::Uie
    } else {
        Field::Ude
    }
}

/// What a timer keeps for the scheduling of tasks.
#[derive(Clone, Copy, Debug, PartialEq, Eq, Structural)]
pub struct MonotonicState {
    /// How often the counter has wrapped around.
    pub wrap_count: u32,
    /// The instant of the next compare event.
    pub compare_inst: Instant,
    /// Whether a compare event has been latched.
    pub compare_latched: bool,
}

/// The word that clears the update flag and leaves every other flag alone.
pub const CLEAR_UPDATE: u32 = 0xffff_fffe;

/// The registers after the counter is re-initialized: an update event is generated, and the
/// update flag that it raises is cleared.
pub open spec fn reinitialized(regs: RegState) -> RegState {
    regs.write(Reg::Egr, 1).write(Reg::Sr, CLEAR_UPDATE)
}

/// The registers after a prescaler and an auto-reload value are set, in this order: the
/// auto-reload value, the prescaler. Where there are no such values, nothing is set.
pub open spec fn freq_set(
    regs: RegState,
    vals: Result<(u16, u16), ValueError>,
) -> RegState {
    match vals {
        Ok((psc, arr)) => regs.write(Reg::Arr, arr as u32).write(Reg::Psc, psc as u32),
        Err(_) => regs,
    }
}

/// The registers after the direction and the alignment are set. Only timers with four
/// channels have these settings.
pub open spec fn dir_set(regs: RegState, channels: Channels, cfg: TimerConfig) -> RegState {
    if channels == Channels::Four {
        regs.set(Field::Dir, cfg.direction.code()).set(Field::Cms, cfg.alignment.code())
    } else {
        regs
    }
}

/// The change to CR1 that a configuration asks for. The F373 has no one-pulse mode.
pub open spec fn config_change(mcu: Mcu, cfg: TimerConfig) -> Change {
    let start = if mcu == Mcu::F373 {
        Change::keep()
    } else {
        Change::keep().with(Field::Opm, flag(cfg.one_pulse_mode))
    };
    start.with(Field::Urs, cfg.update_request_source.code()).with(
        Field::Arpe,
        flag(cfg.auto_reload_preload),
    )
}

/// The registers after a configuration is written. The F373 has no capture/compare DMA
/// selection.
pub open spec fn configured(regs: RegState, mcu: Mcu, cfg: TimerConfig) -> RegState {
    let first = regs.modify(Reg::Cr1, config_change(mcu, cfg));
    if mcu == Mcu::F373 {
        first
    } else {
        first.set(Field::Ccds, cfg.capture_compare_dma.code())
    }
}

/// The registers after a timer is initialized.
pub open spec fn initialized(
    regs: RegState,
    mcu: Mcu,
    channels: Channels,
    vals: Result<(u16, u16), ValueError>,
    cfg: TimerConfig,
) -> RegState {
    reinitialized(dir_set(freq_set(configured(regs, mcu, cfg), vals), channels, cfg))
}

/// The change to CCER that sets up input capture on a channel of a timer with two or four
/// channels. Channels 1 to 3 turn on channels 1 and 2; channel 4 turns on none.
pub open spec fn capture_change(
    mcu: Mcu,
    channel: TimChannel,
    ccp: Polarity,
    ccnp: Polarity,
) -> Change {
    if channel == TimChannel::C4 {
        let start = if has_complementary(mcu, channel) {
            Change::keep().with(Field::Cc4np, flag(ccnp.bit()))
        } else {
            Change::keep()
        };
        start.with(Field::Cc4p, flag(ccp.bit()))
    } else {
        Change::keep().with(channel.polarity_field(), flag(ccp.bit())).with(
            channel.complementary_field(),
            flag(ccnp.bit()),
        ).with(Field::Cc1e, 1).with(Field::Cc2e, 1)
    }
}

/// The change to SMCR that selects a trigger input and a slave mode. All five bits of the
/// trigger selection and all four of the slave mode selection are written, on every family: how
/// many of them a family has is not known here.
pub open spec fn slave_change(trigger: InputTrigger, slave_mode: InputSlaveMode) -> Change {
    Change::keep().with(Field::Ts, trigger.code() % 8).with(
        Field::TsHigh,
        trigger.code() / 8,
    ).with(Field::Sms, slave_mode.code() % 8).with(Field::SmsHigh, slave_mode.code() / 8)
}

/// The registers after an output compare mode is set.
pub open spec fn output_compare_set(
    regs: RegState,
    peripheral: Peripheral,
    channel: TimChannel,
    mode: OutputCompare,
) -> RegState {
    regs.modify(
        channel.mode_field().reg(),
        mode_change(peripheral.mcu, peripheral.channels(), channel, mode),
    )
}

/// The registers after a channel's preload is set.
pub open spec fn preload_set(regs: RegState, channel: TimChannel, value: bool) -> RegState {
    reinitialized(regs.set(channel.preload_field(), flag(value)))
}

/// Represents a General Purpose or Advanced Control timer.
pub struct Timer {
    /// Image of the registers of the specific timer.
    pub regs: Registers,
    /// Our config structure, for configuration that is written to the timer hardware on
    /// initialization via the constructor.
    pub cfg: TimerConfig,
    /// Which timer this is.
    pub peripheral: Peripheral,
    /// What is kept for the scheduling of tasks.
    pub monotonic: MonotonicState,
}

impl Timer {
    /// The microcontroller has the timer.
    pub open spec fn wf(&self) -> bool {
        timer_layout(self.peripheral.mcu, self.peripheral.id) is Some
    }

    /// The two differ at most in their registers.
    pub open spec fn same_but_regs(&self, other: &Timer) -> bool {
        &&& self.cfg == other.cfg
        &&& self.peripheral == other.peripheral
        &&& self.monotonic == other.monotonic
    }

    /// Initialize a timer whose peripheral clock has been enabled and reset. `vals` holds the
    /// prescaler and the auto-reload value for the frequency that the timer is to have; where
    /// there are none, the frequency is left as it is.
    pub fn new(
        regs: Registers,
        mcu: Mcu,
        id: TimerId,
        vals: Result<(u16, u16), ValueError>,
        cfg: TimerConfig,
        clocks: &Clocks,
    ) -> (timer: Timer)
        requires
            timer_layout(mcu, id) is Some,
        ensures
            timer.wf(),
            timer.regs@ == initialized(regs@, mcu, channels_of(mcu, id), vals, cfg),
            timer.cfg == cfg,
            timer.peripheral == (Peripheral {
                mcu,
                id,
                clock_speed: clocks.timer_clock(apb_of(id)),
            }),
            timer.peripheral.clock_speed == match id {
                TimerId::Tim1 | TimerId::Tim8 | TimerId::Tim15 | TimerId::Tim16 => clocks.apb2_timer,
                TimerId::Tim17 | TimerId::Tim19 | TimerId::Tim20 => clocks.apb2_timer,
                _ => clocks.apb1_timer,
            },
            timer.monotonic == (MonotonicState {
                wrap_count: 0,
                compare_inst: Instant { count_us: 0 },
                compare_latched: false,
            }),
    {
        let clock_speed = clocks.timer_clock(apb_of(id));
        let start = if mcu != Mcu::F373 {
            Change::keep().with(Field::Opm, flag(cfg.one_pulse_mode))
        } else {
            Change::keep()
        };
        let mut regs = regs;
        regs.modify(
            Reg::Cr1,
            start.with(Field::Urs, cfg.update_request_source.code()).with(
                Field::Arpe,
                flag(cfg.auto_reload_preload),
            ),
        );
        if mcu != Mcu::F373 {
            regs.set(Field::Ccds, cfg.capture_compare_dma.code());
        }
        let mut result = Timer {
            regs,
            cfg,
            peripheral: Peripheral { mcu, id, clock_speed },
            monotonic: MonotonicState {
                wrap_count: 0,
                compare_inst: Instant::default(),
                compare_latched: false,
            },
        };
        let _ = result.set_freq(vals);
        result.set_dir();
        // Trigger an update event to load the prescaler value to the clock. This also clears
        // the interrupt flag, which the update event will generate.
        result.reinitialize();
        result
    }

    /// Enable a specific type of Timer interrupt.
    pub fn enable_interrupt(&mut self, interrupt: TimerInterrupt)
        requires
            old(self).peripheral.can_enable(interrupt),
        ensures
            final(self).regs@ == old(self).regs@.set(interrupt_field(interrupt), 1),
            final(self).same_but_regs(old(self)),
    {
        match interrupt {
            TimerInterrupt::Update => self.regs.set(Field::Uie, 1),
            _ => self.regs.set(Field::Ude, 1),
        }
    }

    /// Disable a specific type of Timer interrupt.
    pub fn disable_interrupt(&mut self, interrupt: TimerInterrupt)
        requires
            old(self).peripheral.can_enable(interrupt),
        ensures
            final(self).regs@ == old(self).regs@.set(interrupt_field(interrupt), 0),
            final(self).same_but_regs(old(self)),
    {
        match interrupt {
            TimerInterrupt::Update => self.regs.set(Field::Uie, 0),
            _ => self.regs.set(Field::Ude, 0),
        }
    }

    /// Clears the update interrupt of this timer; no other can be cleared.
    ///
    /// If the interrupt is not cleared, it will immediately retrigger after the ISR has
    /// finished. For example, place this at the top of your timer's interrupt handler.
    pub fn clear_interrupt(&mut self, interrupt: TimerInterrupt)
        requires
            interrupt == TimerInterrupt::Update,
        ensures
            final(self).regs@ == old(self).regs@.write(Reg::Sr, CLEAR_UPDATE),
            final(self).same_but_regs(old(self)),
    {
        // A flag is cleared by writing 0: the other flags are written as 1.
        self.regs.write(Reg::Sr, CLEAR_UPDATE);
    }

    /// Enable the timer. Its configuration stays in force.
    pub fn enable(&mut self)
        ensures
            final(self).regs@ == old(self).regs@.set(Field::Cen, 1),
            final(self).same_but_regs(old(self)),
    {
        self.regs.set(Field::Cen, 1);
    }

    /// Disable the timer.
    pub fn disable(&mut self)
        ensures
            final(self).regs@ == old(self).regs@.set(Field::Cen, 0),
            final(self).same_but_regs(old(self)),
    {
        self.regs.set(Field::Cen, 0);
    }

    /// Check if the timer is enabled.
    pub fn is_enabled(&self) -> (enabled: bool)
        ensures
            enabled == (self.regs@.field(Field::Cen) != 0),
    {
        self.regs.field(Field::Cen) != 0
    }

    /// Set the timer frequency by the prescaler and the auto-reload value chosen for it.
    /// Overrides the period or frequency set in the constructor.
    pub fn set_freq(&mut self, vals: Result<(u16, u16), ValueError>) -> (result: Result<
        (),
        ValueError,
    >)
        ensures
            result is Ok <==> vals is Ok,
            final(self).regs@ == freq_set(old(self).regs@, vals),
            final(self).same_but_regs(old(self)),
    {
        match vals {
            Ok((psc, arr)) => {
                self.regs.write(Reg::Arr, arr as u32);
                self.regs.write(Reg::Psc, psc as u32);
                Ok(())
            },
            Err(error) => Err(error),
        }
    }

    /// Set the auto-reload register value. Used for adjusting frequency.
    pub fn set_auto_reload(&mut self, arr: u32)
        ensures
            final(self).regs@ == old(self).regs@.write(Reg::Arr, arr),
            final(self).same_but_regs(old(self)),
    {
        self.regs.write(Reg::Arr, arr);
    }

    /// Set the prescaler value. Used for adjusting frequency.
    pub fn set_prescaler(&mut self, psc: u16)
        ensures
            final(self).regs@ == old(self).regs@.write(Reg::Psc, psc as u32),
            final(self).same_but_regs(old(self)),
    {
        self.regs.write(Reg::Psc, psc as u32);
    }

    /// Reset the countdown; set the counter to 0.
    pub fn reset_count(&mut self)
        ensures
            final(self).regs@ == old(self).regs@.write(Reg::Cnt, 0),
            final(self).same_but_regs(old(self)),
    {
        self.regs.write(Reg::Cnt, 0);
    }

    /// Re-initialize the counter and generate an update of the registers. Note that the
    /// prescaler counter is cleared too (anyway the prescaler ratio is not affected). The
    /// counter is cleared.
    ///
    /// When changing timer frequency (or period) via PSC, you may need to run this.
    /// Alternatively, change the freq in an update ISR. If you're doing something where the
    /// updates can wait a cycle, this isn't required.
    pub fn reinitialize(&mut self)
        ensures
            final(self).regs@ == reinitialized(old(self).regs@),
            final(self).same_but_regs(old(self)),
    {
        self.regs.write(Reg::Egr, 1);
        self.clear_interrupt(TimerInterrupt::Update);
    }

    /// Read the current counter value.
    pub fn read_count(&self) -> (count: u32)
        ensures
            count == self.regs@.get(Reg::Cnt),
    {
        self.regs.get(Reg::Cnt)
    }

    /// Enables PWM output for a given channel and output compare, with an initial duty, as a
    /// portion of `get_max_duty()`.
    pub fn enable_pwm_output(&mut self, channel: TimChannel, compare: OutputCompare, duty: u32)
        requires
            old(self).peripheral.has(channel),
            old(self).peripheral.can_set_duty(),
            duty <= old(self).peripheral.max_value(),
        ensures
            final(self).regs@ == output_compare_set(
                preload_set(old(self).regs@, channel, true),
                old(self).peripheral,
                channel,
                compare,
            ).write(channel.compare_reg(), duty).set(channel.enable_field(), 1),
            final(self).same_but_regs(old(self)),
    {
        self.set_preload(channel, true);
        self.set_output_compare(channel, compare);
        self.set_duty(channel, duty);
        self.enable_capture_compare(channel);
    }

    /// Return the integer associated with the maximum duty period.
    pub fn get_max_duty(&self) -> (max: u32)
        requires
            self.peripheral.is_readable(self.regs@.get(Reg::Arr)),
        ensures
            max == self.peripheral.value_in(self.regs@.get(Reg::Arr)),
    {
        self.peripheral.read_value(self.regs.get(Reg::Arr))
    }

    /// Set the direction and the alignment of the configuration, on timers that have these
    /// options.
    pub fn set_dir(&mut self)
        ensures
            final(self).regs@ == dir_set(
                old(self).regs@,
                old(self).peripheral.channels(),
                old(self).cfg,
            ),
            final(self).same_but_regs(old(self)),
    {
        if self.peripheral.channels() == Channels::Four {
            self.regs.set(Field::Dir, self.cfg.direction.code());
            self.regs.set(Field::Cms, self.cfg.alignment.code());
        }
    }

    /// Set up input capture, eg for PWM input, on a timer with two or four channels.
    /// Note: Does not handle TISEL (timer input selection register).
    pub fn set_input_capture(
        &mut self,
        channel: TimChannel,
        mode: CaptureCompare,
        trigger: InputTrigger,
        slave_mode: InputSlaveMode,
        ccp: Polarity,
        ccnp: Polarity,
    )
        requires
            old(self).peripheral.channels() != Channels::One,
            old(self).peripheral.has(channel),
        ensures
            final(self).regs@ == old(self).regs@.set(channel.selection_field(), mode.code()).modify(
                Reg::Ccer,
                capture_change(old(self).peripheral.mcu, channel, ccp, ccnp),
            ).modify(Reg::Smcr, slave_change(trigger, slave_mode)),
            final(self).same_but_regs(old(self)),
    {
        // Select the active input.
        self.regs.set(channel.selection_field(), mode.code());
        // Select the active polarity.
        let change = match channel {
            TimChannel::C4 => {
                let start = if has_complementary(self.peripheral.mcu, channel) {
                    Change::keep().with(Field::Cc4np, flag(ccnp.bit()))
                } else {
                    Change::keep()
                };
                start.with(Field::Cc4p, flag(ccp.bit()))
            },
            _ => {
                Change::keep().with(channel.polarity_field(), flag(ccp.bit())).with(
                    channel.complementary_field(),
                    flag(ccnp.bit()),
                ).with(Field::Cc1e, 1).with(Field::Cc2e, 1)
            },
        };
        self.regs.modify(Reg::Ccer, change);
        // Select the valid trigger input and configure the slave mode controller.
        let ts: u32 = trigger.code();
        let sms: u32 = slave_mode.code();
        self.regs.modify(
            Reg::Smcr,
            Change::keep().with(Field::Ts, ts % 8).with(Field::TsHigh, ts / 8).with(
                Field::Sms,
                sms % 8,
            ).with(Field::SmsHigh, sms / 8),
        );
    }

    /// Set up input capture, eg for PWM input, on a timer with one channel, which has neither
    /// a trigger input nor a slave mode.
    pub fn set_input_capture_single(
        &mut self,
        channel: TimChannel,
        mode: CaptureCompare,
        ccp: Polarity,
        ccnp: Polarity,
    )
        requires
            old(self).peripheral.channels() == Channels::One,
            old(self).peripheral.has(channel),
        ensures
            final(self).regs@ == old(self).regs@.set(Field::Cc1s, mode.code()).modify(
                Reg::Ccer,
                Change::keep().with(Field::Cc1p, flag(ccp.bit())).with(
                    Field::Cc1np,
                    flag(ccnp.bit()),
                ).with(Field::Cc1e, 1),
            ),
            final(self).same_but_regs(old(self)),
    {
        self.regs.set(channel.selection_field(), mode.code());
        self.regs.modify(
            Reg::Ccer,
            Change::keep().with(channel.polarity_field(), flag(ccp.bit())).with(
                channel.complementary_field(),
                flag(ccnp.bit()),
            ).with(channel.enable_field(), 1),
        );
    }

    /// Set Output Compare Mode. See docs on the `OutputCompare` enum.
    pub fn set_output_compare(&mut self, channel: TimChannel, mode: OutputCompare)
        requires
            old(self).peripheral.has(channel),
        ensures
            final(self).regs@ == output_compare_set(
                old(self).regs@,
                old(self).peripheral,
                channel,
                mode,
            ),
            final(self).same_but_regs(old(self)),
    {
        let change = mode_change(
            self.peripheral.mcu,
            self.peripheral.channels(),
            channel,
            mode,
        );
        self.regs.modify(channel.mode_field().reg(), change);
    }

    /// Return the set duty period for a given channel. Divide by `get_max_duty()` to find the
    /// portion of the duty cycle used.
    pub fn get_duty(&self, channel: TimChannel) -> (duty: u32)
        requires
            self.peripheral.has(channel),
            self.peripheral.is_readable(self.regs@.get(channel.compare_reg())),
        ensures
            duty == self.peripheral.value_in(self.regs@.get(channel.compare_reg())),
    {
        self.peripheral.read_value(self.regs.get(channel.compare_reg()))
    }

    /// Set the duty cycle, as a portion of ARR (`get_max_duty()`). Note that this needs to be
    /// re-run if you change ARR at any point.
    pub fn set_duty(&mut self, channel: TimChannel, duty: u32)
        requires
            old(self).peripheral.has(channel),
            old(self).peripheral.can_set_duty(),
            duty <= old(self).peripheral.max_value(),
        ensures
            final(self).regs@ == old(self).regs@.write(channel.compare_reg(), duty),
            final(self).same_but_regs(old(self)),
    {
        self.regs.write(channel.compare_reg(), duty);
    }

    /// Set timer alignment to Edge, or one of 3 center modes. See docs on the `Alignment`
    /// enum. Only timers with four channels have this option.
    pub fn set_alignment(&mut self, alignment: Alignment)
        requires
            old(self).peripheral.channels() == Channels::Four,
        ensures
            final(self).regs@ == old(self).regs@.set(Field::Cms, alignment.code()),
            final(self).cfg == (TimerConfig { alignment, ..old(self).cfg }),
            final(self).peripheral == old(self).peripheral,
            final(self).monotonic == old(self).monotonic,
    {
        self.regs.set(Field::Cms, alignment.code());
        self.cfg.alignment = alignment;
    }

    /// Set output polarity. See docs on the `Polarity` enum.
    pub fn set_polarity(&mut self, channel: TimChannel, polarity: Polarity)
        requires
            old(self).peripheral.has(channel),
        ensures
            final(self).regs@ == old(self).regs@.set(
                channel.polarity_field(),
                flag(polarity.bit()),
            ),
            final(self).same_but_regs(old(self)),
    {
        self.regs.set(channel.polarity_field(), flag(polarity.bit()));
    }

    /// Set complementary output polarity. See docs on the `Polarity` enum.
    pub fn set_complementary_polarity(&mut self, channel: TimChannel, polarity: Polarity)
        requires
            old(self).peripheral.has(channel),
            has_complementary(old(self).peripheral.mcu, channel),
        ensures
            final(self).regs@ == old(self).regs@.set(
                channel.complementary_field(),
                flag(polarity.bit()),
            ),
            final(self).same_but_regs(old(self)),
    {
        self.regs.set(channel.complementary_field(), flag(polarity.bit()));
    }

    /// Disables capture compare on a specific channel.
    pub fn disable_capture_compare(&mut self, channel: TimChannel)
        requires
            old(self).peripheral.has(channel),
        ensures
            final(self).regs@ == old(self).regs@.set(channel.enable_field(), 0),
            final(self).same_but_regs(old(self)),
    {
        self.regs.set(channel.enable_field(), 0);
    }

    /// Enables capture compare on a specific channel.
    pub fn enable_capture_compare(&mut self, channel: TimChannel)
        requires
            old(self).peripheral.has(channel),
        ensures
            final(self).regs@ == old(self).regs@.set(channel.enable_field(), 1),
            final(self).same_but_regs(old(self)),
    {
        self.regs.set(channel.enable_field(), 1);
    }

    /// Set Capture Compare Mode. See docs on the `CaptureCompare` enum.
    ///
    /// Note: CCxS bits are writable only when the channel is off (CCxE = 0 in CCER).
    pub fn set_capture_compare(&mut self, channel: TimChannel, mode: CaptureCompare)
        requires
            old(self).peripheral.has(channel),
        ensures
            final(self).regs@ == old(self).regs@.set(channel.selection_field(), mode.code()),
            final(self).same_but_regs(old(self)),
    {
        self.regs.set(channel.selection_field(), mode.code());
    }

    /// Set preload mode: whether a new compare value is taken into account at once, or at the
    /// next update event. Setting preload is required to enable PWM.
    pub fn set_preload(&mut self, channel: TimChannel, value: bool)
        requires
            old(self).peripheral.has(channel),
        ensures
            final(self).regs@ == preload_set(old(self).regs@, channel, value),
            final(self).same_but_regs(old(self)),
    {
        self.regs.set(channel.preload_field(), flag(value));
        // As the preload registers are transferred to the shadow registers only when an update
        // event occurs, before starting the counter, all the registers have to be initialized
        // by setting the UG bit in the EGR register.
        self.reinitialize();
    }
}

} // verus!
