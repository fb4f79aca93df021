//! What each operation does to the words that the registers hold: which register, which of its
//! bits, and what they become.

use vstd::prelude::*;

use crate::bits;
use crate::channel::{has_complementary, has_mode_high};
use crate::config::{
    flag, Alignment, CaptureCompare, CaptureCompareDma, CountDir, InputSlaveMode, InputTrigger,
    MasterModeSelection, OutputCompare, Polarity, TimChannel, TimerConfig, TimerInterrupt,
    UpdateReqSrc, ValueError,
};
use crate::dma::{burst_set, burst_transfer, DataSize, Direction};
use crate::frequency::MAX_VALUE;
use crate::laws::{law_set_field, only_register};
use crate::mcu::{Channels, Mcu};
use crate::registers::{Access, Change, Field, Reg, RegState};
use crate::timer::{
    capture_change, configured, dir_set, freq_set, initialized, interrupt_field,
    output_compare_set, preload_set, slave_change, Peripheral, Timer,
};
use crate::word_laws::{
    law_fields_of_ccer, law_fields_of_ccmr1, law_fields_of_ccmr2, law_fields_of_cr1,
    law_fields_of_cr2, law_fields_of_dier, replacing,
};

verus! {

/// Writing a register leaves it with that word, and every other register as it was. The log
/// gains just that write.
pub proof fn law_write(regs: RegState, reg: Reg, value: u32)
    ensures
        regs.write(reg, value).get(reg) == value,
        only_register(regs, regs.write(reg, value), reg),
        regs.write(reg, value).log == regs.log.push(Access::Write { reg, value }),
{
}

/// Replacing bits of a register keeps its other bits, and every other register. The log gains
/// just that modification.
pub proof fn law_modify(regs: RegState, reg: Reg, mask: u32, bits: u32)
    requires
        bits & !mask == 0,
    ensures
        ({
            let after = regs.modify(reg, Change { mask, bits });
            &&& after.get(reg) & mask == bits
            &&& after.get(reg) & !mask == regs.get(reg) & !mask
            &&& only_register(regs, after, reg)
            &&& after.log == regs.log.push(
                Access::Modify { reg, change: Change { mask, bits } },
            )
        }),
{
    let word = regs.get(reg);
    assert(((word & !mask) | bits) & !mask == word & !mask && ((word & !mask) | bits) & mask
        == bits) by (bit_vector)
        requires
            bits & !mask == 0,
    ;
}

/// The number of a setting that is on or off, and the polarity that is on.
pub proof fn law_flags(on: bool, polarity: Polarity)
    ensures
        on ==> flag(on) == 1,
        !on ==> flag(on) == 0,
        Polarity::ActiveLow.bit(),
        !Polarity::ActiveHigh.bit(),
{
}

/// Each channel has its own polarity bit in CCER: bit 1, 5, 9 or 13.
pub proof fn law_polarity_bits(regs: RegState, channel: TimChannel, polarity: Polarity)
    ensures
        ({
            let after = regs.set(channel.polarity_field(), flag(polarity.bit()));
            let on: int = if polarity == Polarity::ActiveLow {
                1
            } else {
                0
            };
            &&& channel == TimChannel::C1 ==> after == regs.modify(
                Reg::Ccer,
                replacing(0x2, 0x2 * on),
            )
            &&& channel == TimChannel::C2 ==> after == regs.modify(
                Reg::Ccer,
                replacing(0x20, 0x20 * on),
            )
            &&& channel == TimChannel::C3 ==> after == regs.modify(
                Reg::Ccer,
                replacing(0x200, 0x200 * on),
            )
            &&& channel == TimChannel::C4 ==> after == regs.modify(
                Reg::Ccer,
                replacing(0x2000, 0x2000 * on),
            )
        }),
{
    law_fields_of_ccer(regs, flag(polarity.bit()));
}

/// Each channel has its own complementary polarity bit in CCER: bit 3, 7, 11 or 15.
pub proof fn law_complementary_bits(regs: RegState, channel: TimChannel, polarity: Polarity)
    ensures
        ({
            let after = regs.set(channel.complementary_field(), flag(polarity.bit()));
            let on: int = if polarity == Polarity::ActiveLow {
                1
            } else {
                0
            };
            &&& channel == TimChannel::C1 ==> after == regs.modify(
                Reg::Ccer,
                replacing(0x8, 0x8 * on),
            )
            &&& channel == TimChannel::C2 ==> after == regs.modify(
                Reg::Ccer,
                replacing(0x80, 0x80 * on),
            )
            &&& channel == TimChannel::C3 ==> after == regs.modify(
                Reg::Ccer,
                replacing(0x800, 0x800 * on),
            )
            &&& channel == TimChannel::C4 ==> after == regs.modify(
                Reg::Ccer,
                replacing(0x8000, 0x8000 * on),
            )
        }),
{
    law_fields_of_ccer(regs, flag(polarity.bit()));
}

/// Each channel is turned on and off by a bit of its own in CCER: bit 0, 4, 8 or 12.
pub proof fn law_enable_bits(regs: RegState, channel: TimChannel, on: u32)
    requires
        on < 2,
    ensures
        ({
            let after = regs.set(channel.enable_field(), on);
            &&& channel == TimChannel::C1 ==> after == regs.modify(
                Reg::Ccer,
                replacing(0x1, on as int),
            )
            &&& channel == TimChannel::C2 ==> after == regs.modify(
                Reg::Ccer,
                replacing(0x10, 0x10 * on),
            )
            &&& channel == TimChannel::C3 ==> after == regs.modify(
                Reg::Ccer,
                replacing(0x100, 0x100 * on),
            )
            &&& channel == TimChannel::C4 ==> after == regs.modify(
                Reg::Ccer,
                replacing(0x1000, 0x1000 * on),
            )
        }),
{
    law_fields_of_ccer(regs, on);
}

/// Each channel has its own preload bit: bit 3 or 11 of CCMR1 for channels 1 and 2, the same bits
/// of CCMR2 for channels 3 and 4. An update event follows.
pub proof fn law_preload_bits(regs: RegState, channel: TimChannel, value: bool)
    ensures
        ({
            let after = preload_set(regs, channel, value);
            let on: int = if value {
                1
            } else {
                0
            };
            &&& channel == TimChannel::C1 ==> after == regs.modify(
                Reg::Ccmr1,
                replacing(0x8, 0x8 * on),
            ).write(Reg::Egr, 1).write(Reg::Sr, 0xffff_fffe)
            &&& channel == TimChannel::C2 ==> after == regs.modify(
                Reg::Ccmr1,
                replacing(0x800, 0x800 * on),
            ).write(Reg::Egr, 1).write(Reg::Sr, 0xffff_fffe)
            &&& channel == TimChannel::C3 ==> after == regs.modify(
                Reg::Ccmr2,
                replacing(0x8, 0x8 * on),
            ).write(Reg::Egr, 1).write(Reg::Sr, 0xffff_fffe)
            &&& channel == TimChannel::C4 ==> after == regs.modify(
                Reg::Ccmr2,
                replacing(0x800, 0x800 * on),
            ).write(Reg::Egr, 1).write(Reg::Sr, 0xffff_fffe)
        }),
{
    law_fields_of_ccmr1(regs, flag(value));
    law_fields_of_ccmr2(regs, flag(value));
}

/// Each channel is selected by two bits of its own: bits 1:0 or 9:8 of CCMR1 for channels 1 and
/// 2, the same bits of CCMR2 for channels 3 and 4.
pub proof fn law_selection_bits(regs: RegState, channel: TimChannel, mode: CaptureCompare)
    ensures
        ({
            let after = regs.set(channel.selection_field(), mode.code());
            let number: int = match mode {
                CaptureCompare::Output => 0,
                CaptureCompare::InputTi1 => 1,
                CaptureCompare::InputTi2 => 2,
                CaptureCompare::InputTrc => 3,
            };
            &&& channel == TimChannel::C1 ==> after == regs.modify(
                Reg::Ccmr1,
                replacing(0x3, number),
            )
            &&& channel == TimChannel::C2 ==> after == regs.modify(
                Reg::Ccmr1,
                replacing(0x300, 0x100 * number),
            )
            &&& channel == TimChannel::C3 ==> after == regs.modify(
                Reg::Ccmr2,
                replacing(0x3, number),
            )
            &&& channel == TimChannel::C4 ==> after == regs.modify(
                Reg::Ccmr2,
                replacing(0x300, 0x100 * number),
            )
        }),
{
    law_fields_of_ccmr1(regs, mode.code());
    law_fields_of_ccmr2(regs, mode.code());
}

/// The selections of different channels are independent: selecting for one channel sets the
/// field with its number and leaves the other three as they were.
pub proof fn law_selections_are_independent(
    regs: RegState,
    channel: TimChannel,
    mode: CaptureCompare,
)
    ensures
        ({
            let after = regs.set(channel.selection_field(), mode.code());
            let number = mode.code();
            &&& after.field(Field::Cc1s) == if channel == TimChannel::C1 {
                number
            } else {
                regs.field(Field::Cc1s)
            }
            &&& after.field(Field::Cc2s) == if channel == TimChannel::C2 {
                number
            } else {
                regs.field(Field::Cc2s)
            }
            &&& after.field(Field::Cc3s) == if channel == TimChannel::C3 {
                number
            } else {
                regs.field(Field::Cc3s)
            }
            &&& after.field(Field::Cc4s) == if channel == TimChannel::C4 {
                number
            } else {
                regs.field(Field::Cc4s)
            }
        }),
{
    assert(1u32 << 2u32 == 4) by (bit_vector);
    law_set_field(regs, channel.selection_field(), mode.code());
}

/// The duty of a channel is in the compare register with its number, and nowhere else.
pub proof fn law_duty_registers(regs: RegState, channel: TimChannel, duty: u32)
    ensures
        ({
            let after = regs.write(channel.compare_reg(), duty);
            &&& after.get(Reg::Ccr1) == if channel == TimChannel::C1 {
                duty
            } else {
                regs.get(Reg::Ccr1)
            }
            &&& after.get(Reg::Ccr2) == if channel == TimChannel::C2 {
                duty
            } else {
                regs.get(Reg::Ccr2)
            }
            &&& after.get(Reg::Ccr3) == if channel == TimChannel::C3 {
                duty
            } else {
                regs.get(Reg::Ccr3)
            }
            &&& after.get(Reg::Ccr4) == if channel == TimChannel::C4 {
                duty
            } else {
                regs.get(Reg::Ccr4)
            }
            &&& forall|other: Reg|
                other != Reg::Ccr1 && other != Reg::Ccr2 && other != Reg::Ccr3 && other
                    != Reg::Ccr4 ==> #[trigger] after.get(other) == regs.get(other)
        }),
{
}

/// Enabling PWM output puts the duty into the compare register with the channel's number and
/// leaves the duties of the other channels alone. It turns on that channel and no other.
pub proof fn law_pwm_registers(
    regs: RegState,
    peripheral: Peripheral,
    channel: TimChannel,
    compare: OutputCompare,
    duty: u32,
)
    ensures
        ({
            let after = output_compare_set(
                preload_set(regs, channel, true),
                peripheral,
                channel,
                compare,
            ).write(channel.compare_reg(), duty).set(channel.enable_field(), 1);
            &&& after.get(Reg::Ccr1) == if channel == TimChannel::C1 {
                duty
            } else {
                regs.get(Reg::Ccr1)
            }
            &&& after.get(Reg::Ccr2) == if channel == TimChannel::C2 {
                duty
            } else {
                regs.get(Reg::Ccr2)
            }
            &&& after.get(Reg::Ccr3) == if channel == TimChannel::C3 {
                duty
            } else {
                regs.get(Reg::Ccr3)
            }
            &&& after.get(Reg::Ccr4) == if channel == TimChannel::C4 {
                duty
            } else {
                regs.get(Reg::Ccr4)
            }
            &&& after.get(Reg::Ccer) == regs.get(Reg::Ccer) | match channel {
                TimChannel::C1 => 0x1u32,
                TimChannel::C2 => 0x10u32,
                TimChannel::C3 => 0x100u32,
                TimChannel::C4 => 0x1000u32,
            }
            &&& after.log.len() == regs.log.len() + 6
        }),
{
    let prepared = output_compare_set(
        preload_set(regs, channel, true),
        peripheral,
        channel,
        compare,
    ).write(channel.compare_reg(), duty);
    law_enable_bits(prepared, channel, 1);
    let word = regs.get(Reg::Ccer);
    assert((word & !0x1u32) | 0x1 == word | 0x1 && (word & !0x10u32) | 0x10 == word | 0x10 && (word
        & !0x100u32) | 0x100 == word | 0x100 && (word & !0x1000u32) | 0x1000 == word | 0x1000)
        by (bit_vector);
    assert(prepared.get(Reg::Ccer) == word);
}

/// The numbers of the output compare modes.
pub proof fn law_output_compare_numbers(mode: OutputCompare)
    ensures
        mode == OutputCompare::Frozen <==> mode.code() == 0,
        mode == OutputCompare::Active <==> mode.code() == 1,
        mode == OutputCompare::Inactive <==> mode.code() == 2,
        mode == OutputCompare::Toggle <==> mode.code() == 3,
        mode == OutputCompare::ForceInactive <==> mode.code() == 4,
        mode == OutputCompare::ForceActive <==> mode.code() == 5,
        mode == OutputCompare::Pwm1 <==> mode.code() == 6,
        mode == OutputCompare::Pwm2 <==> mode.code() == 7,
        mode == OutputCompare::RetriggerableOpmMode1 <==> mode.code() == 8,
        mode == OutputCompare::RetriggerableOpmMode2 <==> mode.code() == 9,
        mode == OutputCompare::CombinedPwm1 <==> mode.code() == 12,
        mode == OutputCompare::CombinedPwm2 <==> mode.code() == 13,
        mode == OutputCompare::AsymmetricPwm1 <==> mode.code() == 14,
        mode == OutputCompare::AsymmetricPwm2 <==> mode.code() == 15,
{
}

/// The mode of a channel, in the word of its mode register: the lowest three bits of the mode's
/// number at bits 6:4 for channels 1 and 3 and at bits 14:12 for channels 2 and 4, the highest
/// bit, where there is one, at bit 16 or 24. Channels 1 and 2 are in CCMR1, the others in CCMR2.
pub proof fn law_output_compare_bits(
    regs: RegState,
    peripheral: Peripheral,
    channel: TimChannel,
    mode: OutputCompare,
)
    ensures
        ({
            let after = output_compare_set(regs, peripheral, channel, mode);
            let low = mode.code() % 8;
            let high = mode.code() / 8;
            let reg = if channel == TimChannel::C1 || channel == TimChannel::C2 {
                Reg::Ccmr1
            } else {
                Reg::Ccmr2
            };
            let first = channel == TimChannel::C1 || channel == TimChannel::C3;
            if has_mode_high(peripheral.mcu, peripheral.channels(), channel) {
                if first {
                    after == regs.modify(reg, replacing(0x0001_0070, 0x0001_0000 * high + 16 * low))
                } else {
                    after == regs.modify(
                        reg,
                        replacing(0x0100_7000, 0x0100_0000 * high + 0x1000 * low),
                    )
                }
            } else {
                if first {
                    after == regs.modify(reg, replacing(0x70, 16 * low))
                } else {
                    after == regs.modify(reg, replacing(0x7000, 0x1000 * low))
                }
            }
        }),
{
    let low = (mode.code() % 8) as u32;
    let high = (mode.code() / 8) as u32;
    assert({
        &&& 0u32 | bits::span_mask(16, 1) | bits::span_mask(4, 3) == 0x0001_0070
        &&& 0u32 | bits::span_mask(24, 1) | bits::span_mask(12, 3) == 0x0100_7000
        &&& 0u32 | bits::span_mask(4, 3) == 0x70
        &&& 0u32 | bits::span_mask(12, 3) == 0x7000
        &&& bits::insert(bits::insert(0, 16, 1, high), 4, 3, low) == 0x0001_0000 * high + 16 * low
        &&& bits::insert(bits::insert(0, 24, 1, high), 12, 3, low) == 0x0100_0000 * high + 0x1000
            * low
        &&& bits::insert(0, 4, 3, low) == 16 * low
        &&& bits::insert(0, 12, 3, low) == 0x1000 * low
    }) by (bit_vector)
        requires
            low < 8,
            high < 2,
    ;
}

/// The numbers of the trigger inputs and of the slave modes.
pub proof fn law_trigger_numbers(trigger: InputTrigger, slave_mode: InputSlaveMode)
    ensures
        trigger == InputTrigger::Internal0 <==> trigger.code() == 0,
        trigger == InputTrigger::Internal1 <==> trigger.code() == 1,
        trigger == InputTrigger::Internal2 <==> trigger.code() == 2,
        trigger == InputTrigger::Internal3 <==> trigger.code() == 3,
        trigger == InputTrigger::Ti1Edge <==> trigger.code() == 4,
        trigger == InputTrigger::FilteredTimerInput1 <==> trigger.code() == 5,
        trigger == InputTrigger::FilteredTimerInput2 <==> trigger.code() == 6,
        trigger == InputTrigger::ExternalTriggerInput <==> trigger.code() == 7,
        trigger == InputTrigger::Internal4 <==> trigger.code() == 8,
        trigger == InputTrigger::Internal5 <==> trigger.code() == 9,
        trigger == InputTrigger::Internal6 <==> trigger.code() == 10,
        trigger == InputTrigger::Internal7 <==> trigger.code() == 11,
        trigger == InputTrigger::Internal8 <==> trigger.code() == 12,
        trigger == InputTrigger::Internal9 <==> trigger.code() == 13,
        trigger == InputTrigger::Internal10 <==> trigger.code() == 14,
        trigger == InputTrigger::Internal11 <==> trigger.code() == 15,
        trigger == InputTrigger::Internal12 <==> trigger.code() == 16,
        trigger == InputTrigger::Internal13 <==> trigger.code() == 17,
        slave_mode == InputSlaveMode::Disabled <==> slave_mode.code() == 0,
        slave_mode == InputSlaveMode::Encoder1 <==> slave_mode.code() == 1,
        slave_mode == InputSlaveMode::Encoder2 <==> slave_mode.code() == 2,
        slave_mode == InputSlaveMode::Encoder3 <==> slave_mode.code() == 3,
        slave_mode == InputSlaveMode::Reset <==> slave_mode.code() == 4,
        slave_mode == InputSlaveMode::Gated <==> slave_mode.code() == 5,
        slave_mode == InputSlaveMode::Trigger <==> slave_mode.code() == 6,
        slave_mode == InputSlaveMode::ExternalClock1 <==> slave_mode.code() == 7,
        slave_mode == InputSlaveMode::CombinedResetTrigger <==> slave_mode.code() == 8,
{
}

/// The trigger input and the slave mode in the word of SMCR: the trigger's number at bits 6:4 and
/// 21:20, the slave mode's at bits 2:0 and 16.
pub proof fn law_slave_bits(trigger: InputTrigger, slave_mode: InputSlaveMode)
    ensures
        slave_change(trigger, slave_mode) == replacing(
            0x0031_0077,
            0x0010_0000 * (trigger.code() / 8) + 16 * (trigger.code() % 8) + 0x0001_0000 * (
            slave_mode.code() / 8) + slave_mode.code() % 8,
        ),
{
    let t0 = (trigger.code() % 8) as u32;
    let t1 = (trigger.code() / 8) as u32;
    let s0 = (slave_mode.code() % 8) as u32;
    let s1 = (slave_mode.code() / 8) as u32;
    assert({
        &&& 0u32 | bits::span_mask(4, 3) | bits::span_mask(20, 2) | bits::span_mask(0, 3)
            | bits::span_mask(16, 1) == 0x0031_0077
        &&& bits::insert(
            bits::insert(bits::insert(bits::insert(0, 4, 3, t0), 20, 2, t1), 0, 3, s0),
            16,
            1,
            s1,
        ) == 0x0010_0000 * t1 + 16 * t0 + 0x0001_0000 * s1 + s0
    }) by (bit_vector)
        requires
            t0 < 8,
            t1 < 4,
            s0 < 8,
            s1 < 2,
    ;
}

/// Input capture in the word of CCER: the two polarities of the channel, and channels 1 and 2
/// turned on for channels 1 to 3. For channel 4 it is the polarity alone, with the complementary
/// one where there is one.
pub proof fn law_capture_bits(mcu: Mcu, channel: TimChannel, ccp: Polarity, ccnp: Polarity)
    ensures
        ({
            let change = capture_change(mcu, channel, ccp, ccnp);
            let p: int = if ccp == Polarity::ActiveLow {
                1
            } else {
                0
            };
            let n: int = if ccnp == Polarity::ActiveLow {
                1
            } else {
                0
            };
            &&& channel == TimChannel::C1 ==> change == replacing(0x1b, 0x11 + 0x2 * p + 0x8 * n)
            &&& channel == TimChannel::C2 ==> change == replacing(0xb1, 0x11 + 0x20 * p + 0x80 * n)
            &&& channel == TimChannel::C3 ==> change == replacing(
                0xa11,
                0x11 + 0x200 * p + 0x800 * n,
            )
            &&& channel == TimChannel::C4 && has_complementary(mcu, channel) ==> change
                == replacing(0xa000, 0x2000 * p + 0x8000 * n)
            &&& channel == TimChannel::C4 && !has_complementary(mcu, channel) ==> change
                == replacing(0x2000, 0x2000 * p)
        }),
{
    let p = flag(ccp.bit());
    let n = flag(ccnp.bit());
    assert({
        &&& 0u32 | bits::span_mask(1, 1) | bits::span_mask(3, 1) | bits::span_mask(0, 1)
            | bits::span_mask(4, 1) == 0x1b
        &&& 0u32 | bits::span_mask(5, 1) | bits::span_mask(7, 1) | bits::span_mask(0, 1)
            | bits::span_mask(4, 1) == 0xb1
        &&& 0u32 | bits::span_mask(9, 1) | bits::span_mask(11, 1) | bits::span_mask(0, 1)
            | bits::span_mask(4, 1) == 0xa11
        &&& 0u32 | bits::span_mask(15, 1) | bits::span_mask(13, 1) == 0xa000
        &&& 0u32 | bits::span_mask(13, 1) == 0x2000
        &&& bits::insert(
            bits::insert(bits::insert(bits::insert(0, 1, 1, p), 3, 1, n), 0, 1, 1),
            4,
            1,
            1,
        ) == 0x11 + 0x2 * p + 0x8 * n
        &&& bits::insert(
            bits::insert(bits::insert(bits::insert(0, 5, 1, p), 7, 1, n), 0, 1, 1),
            4,
            1,
            1,
        ) == 0x11 + 0x20 * p + 0x80 * n
        &&& bits::insert(
            bits::insert(bits::insert(bits::insert(0, 9, 1, p), 11, 1, n), 0, 1, 1),
            4,
            1,
            1,
        ) == 0x11 + 0x200 * p + 0x800 * n
        &&& bits::insert(bits::insert(0, 15, 1, n), 13, 1, p) == 0x2000 * p + 0x8000 * n
        &&& bits::insert(0, 13, 1, p) == 0x2000 * p
    }) by (bit_vector)
        requires
            p < 2,
            n < 2,
    ;
}

/// The numbers of the remaining settings.
pub proof fn law_setting_numbers(
    alignment: Alignment,
    direction: CountDir,
    source: UpdateReqSrc,
    requests: CaptureCompareDma,
    master: MasterModeSelection,
)
    ensures
        alignment == Alignment::Edge <==> alignment.code() == 0,
        alignment == Alignment::Center1 <==> alignment.code() == 1,
        alignment == Alignment::Center2 <==> alignment.code() == 2,
        alignment == Alignment::Center3 <==> alignment.code() == 3,
        direction == CountDir::Up <==> direction.code() == 0,
        direction == CountDir::Down <==> direction.code() == 1,
        source == UpdateReqSrc::Any <==> source.code() == 0,
        source == UpdateReqSrc::OverUnderFlow <==> source.code() == 1,
        requests == CaptureCompareDma::Ccx <==> requests.code() == 0,
        requests == CaptureCompareDma::Update <==> requests.code() == 1,
        master == MasterModeSelection::Reset <==> master.code() == 0,
        master == MasterModeSelection::Enable <==> master.code() == 1,
        master == MasterModeSelection::Update <==> master.code() == 2,
        master == MasterModeSelection::ComparePulse <==> master.code() == 3,
        master == MasterModeSelection::Compare1 <==> master.code() == 4,
        master == MasterModeSelection::Compare2 <==> master.code() == 5,
        master == MasterModeSelection::Compare3 <==> master.code() == 6,
        master == MasterModeSelection::Compare4 <==> master.code() == 7,
{
}

/// Input capture sets the selection with the channel's number and leaves the selections of the
/// other channels as they were. Of the other registers only CCER and SMCR change.
pub proof fn law_input_capture_registers(
    regs: RegState,
    mcu: Mcu,
    channel: TimChannel,
    mode: CaptureCompare,
    trigger: InputTrigger,
    slave_mode: InputSlaveMode,
    ccp: Polarity,
    ccnp: Polarity,
)
    ensures
        ({
            let after = regs.set(channel.selection_field(), mode.code()).modify(
                Reg::Ccer,
                capture_change(mcu, channel, ccp, ccnp),
            ).modify(Reg::Smcr, slave_change(trigger, slave_mode));
            let number = mode.code();
            &&& after.field(Field::Cc1s) == if channel == TimChannel::C1 {
                number
            } else {
                regs.field(Field::Cc1s)
            }
            &&& after.field(Field::Cc2s) == if channel == TimChannel::C2 {
                number
            } else {
                regs.field(Field::Cc2s)
            }
            &&& after.field(Field::Cc3s) == if channel == TimChannel::C3 {
                number
            } else {
                regs.field(Field::Cc3s)
            }
            &&& after.field(Field::Cc4s) == if channel == TimChannel::C4 {
                number
            } else {
                regs.field(Field::Cc4s)
            }
            &&& forall|other: Reg|
                other != Reg::Ccmr1 && other != Reg::Ccmr2 && other != Reg::Ccer && other
                    != Reg::Smcr ==> #[trigger] after.get(other) == regs.get(other)
        }),
{
    let first = regs.set(channel.selection_field(), mode.code());
    let after = first.modify(Reg::Ccer, capture_change(mcu, channel, ccp, ccnp)).modify(
        Reg::Smcr,
        slave_change(trigger, slave_mode),
    );
    law_selections_are_independent(regs, channel, mode);
    assert(after.get(Reg::Ccmr1) == first.get(Reg::Ccmr1));
    assert(after.get(Reg::Ccmr2) == first.get(Reg::Ccmr2));
}

/// Input capture on a timer with one channel, in the words of CCMR1 and CCER.
pub proof fn law_single_capture_bits(
    regs: RegState,
    mode: CaptureCompare,
    ccp: Polarity,
    ccnp: Polarity,
)
    ensures
        ({
            let p: int = if ccp == Polarity::ActiveLow {
                1
            } else {
                0
            };
            let n: int = if ccnp == Polarity::ActiveLow {
                1
            } else {
                0
            };
            regs.set(Field::Cc1s, mode.code()).modify(
                Reg::Ccer,
                Change::keep().with(Field::Cc1p, flag(ccp.bit())).with(
                    Field::Cc1np,
                    flag(ccnp.bit()),
                ).with(Field::Cc1e, 1),
            ) == regs.modify(Reg::Ccmr1, replacing(0x3, mode.code() as int)).modify(
                Reg::Ccer,
                replacing(0xb, 1 + 2 * p + 8 * n),
            )
        }),
{
    law_fields_of_ccmr1(regs, mode.code());
    let p = flag(ccp.bit());
    let n = flag(ccnp.bit());
    assert({
        &&& 0u32 | bits::span_mask(1, 1) | bits::span_mask(3, 1) | bits::span_mask(0, 1) == 0xb
        &&& bits::insert(bits::insert(bits::insert(0, 1, 1, p), 3, 1, n), 0, 1, 1) == 1 + 2 * p + 8
            * n
    }) by (bit_vector)
        requires
            p < 2,
            n < 2,
    ;
}

/// The update interrupt is bit 0 of DIER, the update DMA request bit 8.
pub proof fn law_interrupt_bits(regs: RegState, on: u32)
    requires
        on < 2,
    ensures
        regs.set(interrupt_field(TimerInterrupt::Update), on) == regs.modify(
            Reg::Dier,
            replacing(0x1, on as int),
        ),
        regs.set(interrupt_field(TimerInterrupt::UpdateDma), on) == regs.modify(
            Reg::Dier,
            replacing(0x100, 0x100 * on),
        ),
{
    law_fields_of_dier(regs, on);
}

/// The counter enable bit is bit 0 of CR1: enabling sets it and disabling clears it, with all
/// other bits kept. The timer is enabled exactly if CR1 is odd.
pub proof fn law_counter_enable_bit(regs: RegState)
    ensures
        regs.set(Field::Cen, 1) == regs.modify(Reg::Cr1, replacing(0x1, 1)),
        regs.set(Field::Cen, 0) == regs.modify(Reg::Cr1, replacing(0x1, 0)),
        regs.field(Field::Cen) != 0 <==> regs.get(Reg::Cr1) % 2 == 1,
{
    law_fields_of_cr1(regs, 1);
    law_fields_of_cr1(regs, 0);
}

/// The alignment is at bits 6:5 of CR1, the master mode at bits 6:4 of CR2.
pub proof fn law_mode_selection_bits(
    regs: RegState,
    alignment: Alignment,
    master: MasterModeSelection,
)
    ensures
        regs.set(Field::Cms, alignment.code()) == regs.modify(
            Reg::Cr1,
            replacing(0x60, 0x20 * alignment.code()),
        ),
        regs.set(Field::Mms, master.code()) == regs.modify(
            Reg::Cr2,
            replacing(0x70, 0x10 * master.code()),
        ),
{
    law_fields_of_cr1(regs, alignment.code());
    law_fields_of_cr2(regs, master.code());
}

/// A configuration in the words of CR1 and CR2: one-pulse mode at bit 3, the update request source
/// at bit 2 and the auto-reload preload at bit 7 of CR1, the capture/compare DMA selection at bit 3
/// of CR2. On the F373 one-pulse mode and DMA selection are left alone.
pub proof fn law_configuration_bits(regs: RegState, mcu: Mcu, cfg: TimerConfig)
    ensures
        ({
            let one_pulse: int = if cfg.one_pulse_mode {
                1
            } else {
                0
            };
            let preload: int = if cfg.auto_reload_preload {
                1
            } else {
                0
            };
            let source: int = if cfg.update_request_source == UpdateReqSrc::OverUnderFlow {
                1
            } else {
                0
            };
            let requests: int = if cfg.capture_compare_dma == CaptureCompareDma::Update {
                1
            } else {
                0
            };
            if mcu == Mcu::F373 {
                configured(regs, mcu, cfg) == regs.modify(
                    Reg::Cr1,
                    replacing(0x84, 4 * source + 0x80 * preload),
                )
            } else {
                configured(regs, mcu, cfg) == regs.modify(
                    Reg::Cr1,
                    replacing(0x8c, 8 * one_pulse + 4 * source + 0x80 * preload),
                ).modify(Reg::Cr2, replacing(0x8, 8 * requests))
            }
        }),
{
    let opm = flag(cfg.one_pulse_mode);
    let urs = cfg.update_request_source.code();
    let arpe = flag(cfg.auto_reload_preload);
    law_fields_of_cr2(regs, cfg.capture_compare_dma.code());
    assert({
        &&& 0u32 | bits::span_mask(2, 1) | bits::span_mask(7, 1) == 0x84
        &&& 0u32 | bits::span_mask(3, 1) | bits::span_mask(2, 1) | bits::span_mask(7, 1) == 0x8c
        &&& bits::insert(bits::insert(0, 2, 1, urs), 7, 1, arpe) == 4 * urs + 0x80 * arpe
        &&& bits::insert(bits::insert(bits::insert(0, 3, 1, opm), 2, 1, urs), 7, 1, arpe) == 8 * opm
            + 4 * urs + 0x80 * arpe
    }) by (bit_vector)
        requires
            opm < 2,
            urs < 2,
            arpe < 2,
    ;
}

/// The direction is bit 4 of CR1, and the alignment follows in an access of its own. Timers with
/// fewer than four channels have neither.
pub proof fn law_direction_bits(regs: RegState, channels: Channels, cfg: TimerConfig)
    ensures
        ({
            let down: int = if cfg.direction == CountDir::Down {
                1
            } else {
                0
            };
            &&& channels == Channels::Four ==> dir_set(regs, channels, cfg) == regs.modify(
                Reg::Cr1,
                replacing(0x10, 0x10 * down),
            ).modify(Reg::Cr1, replacing(0x60, 0x20 * cfg.alignment.code()))
            &&& channels != Channels::Four ==> dir_set(regs, channels, cfg) == regs
        }),
{
    law_fields_of_cr1(regs, cfg.direction.code());
    law_fields_of_cr1(regs, cfg.alignment.code());
}

/// A frequency is set by two writes: first the auto-reload value, then the prescaler. Without
/// values nothing is written.
pub proof fn law_frequency_accesses(regs: RegState, psc: u16, arr: u16, error: ValueError)
    ensures
        freq_set(regs, Ok((psc, arr))).log == regs.log.push(
            Access::Write { reg: Reg::Arr, value: arr as u32 },
        ).push(Access::Write { reg: Reg::Psc, value: psc as u32 }),
        freq_set(regs, Err(error)) == regs,
{
}

/// Initialization writes the configuration, then the frequency, then direction and alignment, and
/// ends with an update event.
pub proof fn law_initialization_order(
    regs: RegState,
    mcu: Mcu,
    channels: Channels,
    vals: Result<(u16, u16), ValueError>,
    cfg: TimerConfig,
)
    ensures
        ({
            let setup = configured(regs, mcu, cfg);
            let clocked = match vals {
                Ok((psc, arr)) => setup.write(Reg::Arr, arr as u32).write(Reg::Psc, psc as u32),
                Err(_) => setup,
            };
            let directed = if channels == Channels::Four {
                clocked.set(Field::Dir, cfg.direction.code()).set(
                    Field::Cms,
                    cfg.alignment.code(),
                )
            } else {
                clocked
            };
            initialized(regs, mcu, channels, vals, cfg) == directed.write(Reg::Egr, 1).write(
                Reg::Sr,
                0xffff_fffe,
            )
        }),
{
}

/// A burst in the word of DCR: the base address at bits 4:0, the length less one at bits 12:8. The
/// timer is then enabled, with the rest of its configuration kept.
pub proof fn law_burst_bits(regs: RegState, base_address: u8, burst_len: u8)
    requires
        burst_len >= 1,
    ensures
        burst_set(regs, base_address, burst_len) == regs.modify(
            Reg::Dcr,
            replacing(0x1f1f, base_address as int % 32 + 0x100 * ((burst_len - 1) % 32)),
        ).modify(Reg::Cr1, replacing(0x1, 1)),
{
    let base = base_address as u32;
    let len = (burst_len - 1) as u32;
    assert({
        &&& 0u32 | bits::span_mask(0, 5) | bits::span_mask(8, 5) == 0x1f1f
        &&& bits::insert(bits::insert(0, 0, 5, base), 8, 5, len) == base % 32 + 0x100 * (len % 32)
    }) by (bit_vector);
    law_fields_of_cr1(
        regs.modify(Reg::Dcr, Change::keep().with(Field::Dba, base).with(Field::Dbl, len)),
        1,
    );
}

/// A burst transfers the whole buffer: as many items as it has, up to 65535, and on the H7 family
/// up to what 32 bits can count. Of a longer buffer the number of items is the length modulo
/// 65536, and on the H7 family modulo 2 to the power of 32. The items in memory are half-words,
/// and those at the peripheral words exactly if these are asked for.
pub proof fn law_burst_transfers_the_buffer(
    mcu: Mcu,
    len: usize,
    direction: Direction,
    ds_32_bits: bool,
)
    ensures
        ({
            let transfer = burst_transfer(mcu, len, direction, ds_32_bits);
            &&& len <= 65_535 ==> transfer.num_data == len
            &&& mcu == Mcu::H7 && len <= u32::MAX ==> transfer.num_data == len
            &&& mcu == Mcu::H7 ==> (len - transfer.num_data) % 0x1_0000_0000 == 0
            &&& mcu != Mcu::H7 ==> transfer.num_data <= 65_535 && (len - transfer.num_data) % 65_536
                == 0
            &&& transfer.direction == direction
            &&& transfer.mem_size == DataSize::S16
            &&& ds_32_bits <==> transfer.periph_size == DataSize::S32
        }),
{
}

/// Center alignment needs the double frequency, edge alignment does not.
pub proof fn law_frequency_factors(alignment: Alignment)
    ensures
        alignment == Alignment::Edge ==> alignment.freq_factor() == 1,
        alignment != Alignment::Edge ==> alignment.freq_factor() == 2,
{
}

/// A prescaler and an auto-reload value can be whatever 16 bits can hold.
pub proof fn law_frequency_range()
    ensures
        MAX_VALUE == u16::MAX,
{
}

/// Timers that are the same but for their registers have the same configuration, are the same
/// timer, and keep the same for the scheduling of tasks.
pub proof fn law_same_but_regs(timer: Timer, other: Timer)
    requires
        timer.same_but_regs(&other),
    ensures
        timer.cfg == other.cfg,
        timer.peripheral == other.peripheral,
        timer.monotonic == other.monotonic,
{
}

} // verus!
