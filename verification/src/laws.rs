//! What holds of timers as a whole: what a setting reads back as, what it leaves alone, what
//! undoes it.

use core::cmp::Ordering;
use core::time::Duration;
use vstd::prelude::*;
use vstd::std_specs::cmp::PartialOrdSpec;
use vstd::std_specs::ops::{AddSpec, SubSpec};

use crate::bits;
use crate::channel::{has_complementary, has_mode_high};
use crate::config::{
    flag, Alignment, CaptureCompare, CaptureCompareDma, CountDir, InputSlaveMode, InputTrigger,
    MasterModeSelection, OutputCompare, Polarity, TimChannel, TimerConfig, TimerInterrupt,
    UpdateReqSrc, ValueError,
};
use crate::dma::burst_set;
use crate::instant::{
    duration_of_micros, nanos_in, order_of, whole_micros, wrap_i64, wrap_u64, Instant,
};
use crate::mcu::{Channels, Mcu};
use crate::registers::{
    lemma_keep, lemma_put, lemma_with, Access, Change, Field, Reg, RegState,
};
use crate::timer::{
    capture_change, config_change, configured, dir_set, freq_set, initialized, interrupt_field,
    output_compare_set, preload_set, reinitialized, slave_change, Peripheral, CLEAR_UPDATE,
};

verus! {

/// `after` differs from `before` at most in register `reg`.
pub open spec fn only_register(before: RegState, after: RegState, reg: Reg) -> bool {
    forall|other: Reg| other != reg ==> #[trigger] after.get(other) == before.get(other)
}

/// `after` differs from `before` at most in the given fields.
pub open spec fn only_fields(before: RegState, after: RegState, fields: Set<Field>) -> bool {
    forall|other: Field|
        !fields.contains(other) ==> #[trigger] after.field(other) == before.field(other)
}

/// The contents of the registers after a sequence of accesses, on a peripheral whose
/// registers behave as memory does.
pub open spec fn replay(values: spec_fn(Reg) -> u32, accesses: Seq<Access>) -> spec_fn(
    Reg,
) -> u32
    decreases accesses.len(),
{
    if accesses.len() == 0 {
        values
    } else {
        let access = accesses.last();
        let before = replay(values, accesses.drop_last());
        |reg: Reg|
            if reg == access.target() {
                access.outcome(before(reg))
            } else {
                before(reg)
            }
    }
}

/// The state after a sequence of accesses.
pub open spec fn perform_all(regs: RegState, accesses: Seq<Access>) -> RegState
    decreases accesses.len(),
{
    if accesses.len() == 0 {
        regs
    } else {
        perform_all(regs, accesses.drop_last()).perform(accesses.last())
    }
}

/// The log is a faithful record: whatever accesses are made to an image, they are what the log
/// gains, in their order, and repeating them on registers with the contents that the image had
/// leads to the contents that the image has.
pub proof fn law_log_replays(regs: RegState, accesses: Seq<Access>)
    ensures
        perform_all(regs, accesses).log == regs.log + accesses,
        perform_all(regs, accesses).values == replay(regs.values, accesses),
    decreases accesses.len(),
{
    if accesses.len() == 0 {
        assert(regs.log + accesses =~= regs.log);
    } else {
        law_log_replays(regs, accesses.drop_last());
        assert((regs.log + accesses.drop_last()).push(accesses.last()) =~= regs.log + accesses);
    }
}

/// An access changes no other register than its target.
pub proof fn law_access_is_local(regs: RegState, access: Access)
    ensures
        regs.perform(access).get(access.target()) == access.outcome(regs.get(access.target())),
        only_register(regs, regs.perform(access), access.target()),
{
}

/// A modification leaves every bit outside its mask as it was, and the bits inside it as the
/// change says.
pub proof fn law_modify_keeps_the_rest(regs: RegState, reg: Reg, change: Change)
    requires
        change.wf(),
    ensures
        regs.modify(reg, change).get(reg) & !change.mask == regs.get(reg) & !change.mask,
        regs.modify(reg, change).get(reg) & change.mask == change.bits,
{
    let word = regs.get(reg);
    let mask = change.mask;
    let value = change.bits;
    assert(((word & !mask) | value) & !mask == word & !mask && ((word & !mask) | value) & mask
        == value) by (bit_vector)
        requires
            value & !mask == 0,
    ;
}

/// A field that was set reads back, and no other field changes.
pub proof fn law_set_field(regs: RegState, field: Field, value: u32)
    requires
        value < 1u32 << field.span().1,
    ensures
        regs.set(field, value).field(field) == value,
        only_fields(regs, regs.set(field, value), set![field]),
        only_register(regs, regs.set(field, value), field.reg()),
{
    let after = regs.set(field, value);
    let word = regs.get(field.reg());
    lemma_keep(word);
    lemma_with(Change::keep(), field, value, word);
    lemma_put(field, word, value);
    assert forall|other: Field| other != field implies #[trigger] after.field(other) == regs.field(
        other,
    ) by {
        if other.reg() == field.reg() {
        } else {
            assert(after.get(other.reg()) == regs.get(other.reg()));
        }
    }
}

proof fn lemma_field_sizes()
    ensures
        1u32 << 1u32 == 2,
        1u32 << 2u32 == 4,
        1u32 << 3u32 == 8,
        1u32 << 5u32 == 32,
{
    assert(1u32 << 1u32 == 2 && 1u32 << 2u32 == 4 && 1u32 << 3u32 == 8 && 1u32 << 5u32 == 32)
        by (bit_vector);
}

/// The empty change keeps every field.
proof fn lemma_start(regs: RegState, reg: Reg)
    ensures
        Change::keep().wf(),
        only_fields(regs, regs.modify(reg, Change::keep()), Set::empty()),
{
    let after = regs.modify(reg, Change::keep());
    lemma_keep(regs.get(reg));
    assert forall|other: Field| #[trigger] after.field(other) == regs.field(other) by {
        assert(after.get(other.reg()) == regs.get(other.reg()));
    }
}

/// Adding a field to a change sets that field and leaves the rest of the change's effect.
proof fn lemma_step(regs: RegState, reg: Reg, change: Change, field: Field, value: u32)
    requires
        change.wf(),
        field.reg() == reg,
        value < 1u32 << field.span().1,
    ensures
        change.with(field, value).wf(),
        regs.modify(reg, change.with(field, value)).field(field) == value,
        only_fields(
            regs.modify(reg, change),
            regs.modify(reg, change.with(field, value)),
            set![field],
        ),
        only_register(regs, regs.modify(reg, change.with(field, value)), reg),
{
    let word = regs.get(reg);
    let before = regs.modify(reg, change);
    let after = regs.modify(reg, change.with(field, value));
    lemma_with(change, field, value, word);
    lemma_put(field, change.outcome(word), value);
    assert(after.get(reg) == field.put(before.get(reg), value));
    assert forall|other: Field| other != field implies #[trigger] after.field(other)
        == before.field(other) by {
        if other.reg() != reg {
            assert(after.get(other.reg()) == before.get(other.reg()));
        }
    }
}

/// An output compare mode reads back: the two parts of the selection are those of the mode's
/// number where the channel has both, and no other field changes.
pub proof fn law_output_compare_reads_back(
    regs: RegState,
    peripheral: Peripheral,
    channel: TimChannel,
    mode: OutputCompare,
)
    requires
        peripheral.has(channel),
    ensures
        ({
            let after = output_compare_set(regs, peripheral, channel, mode);
            let high = has_mode_high(peripheral.mcu, peripheral.channels(), channel);
            &&& after.field(channel.mode_field()) == mode.code() % 8
            &&& high ==> 8 * after.field(channel.mode_high_field()) + after.field(
                channel.mode_field(),
            ) == mode.code()
            &&& !high ==> only_fields(regs, after, set![channel.mode_field()])
            &&& high ==> only_fields(
                regs,
                after,
                set![channel.mode_field(), channel.mode_high_field()],
            )
        }),
{
    let reg = channel.mode_field().reg();
    let after = output_compare_set(regs, peripheral, channel, mode);
    lemma_field_sizes();
    lemma_start(regs, reg);
    if has_mode_high(peripheral.mcu, peripheral.channels(), channel) {
        lemma_step(regs, reg, Change::keep(), channel.mode_high_field(), mode.code() / 8);
        lemma_step(
            regs,
            reg,
            Change::keep().with(channel.mode_high_field(), mode.code() / 8),
            channel.mode_field(),
            mode.code() % 8,
        );
    } else {
        lemma_step(regs, reg, Change::keep(), channel.mode_field(), mode.code() % 8);
    }
}

/// The trigger input and the slave mode read back, and no other field changes.
pub proof fn law_slave_mode_reads_back(
    regs: RegState,
    trigger: InputTrigger,
    slave_mode: InputSlaveMode,
)
    ensures
        ({
            let after = regs.modify(Reg::Smcr, slave_change(trigger, slave_mode));
            &&& 8 * after.field(Field::TsHigh) + after.field(Field::Ts) == trigger.code()
            &&& 8 * after.field(Field::SmsHigh) + after.field(Field::Sms) == slave_mode.code()
            &&& only_fields(
                regs,
                after,
                set![Field::Ts, Field::TsHigh, Field::Sms, Field::SmsHigh],
            )
        }),
{
    lemma_field_sizes();
    let c0 = Change::keep();
    let c1 = c0.with(Field::Ts, trigger.code() % 8);
    let c2 = c1.with(Field::TsHigh, trigger.code() / 8);
    let c3 = c2.with(Field::Sms, slave_mode.code() % 8);
    lemma_start(regs, Reg::Smcr);
    lemma_step(regs, Reg::Smcr, c0, Field::Ts, trigger.code() % 8);
    lemma_step(regs, Reg::Smcr, c1, Field::TsHigh, trigger.code() / 8);
    lemma_step(regs, Reg::Smcr, c2, Field::Sms, slave_mode.code() % 8);
    lemma_step(regs, Reg::Smcr, c3, Field::SmsHigh, slave_mode.code() / 8);
}

/// The fields that input capture on a channel of a timer with two or four channels sets.
pub open spec fn capture_fields(mcu: Mcu, channel: TimChannel) -> Set<Field> {
    let slave = set![Field::Ts, Field::TsHigh, Field::Sms, Field::SmsHigh];
    let own = slave.insert(channel.selection_field()).insert(channel.polarity_field());
    if channel != TimChannel::C4 {
        own.insert(channel.complementary_field()).insert(Field::Cc1e).insert(Field::Cc2e)
    } else if has_complementary(mcu, channel) {
        own.insert(Field::Cc4np)
    } else {
        own
    }
}

/// Input capture reads back: the selected input, both polarities, the trigger and the slave
/// mode. Channels 1 to 3 leave channels 1 and 2 turned on. No other field changes.
pub proof fn law_input_capture_reads_back(
    regs: RegState,
    mcu: Mcu,
    channel: TimChannel,
    mode: CaptureCompare,
    trigger: InputTrigger,
    slave_mode: InputSlaveMode,
    ccp: Polarity,
    ccnp: Polarity,
)
    ensures
        ({
            let after = regs.set(channel.selection_field(), mode.code()).modify(
                Reg::Ccer,
                capture_change(mcu, channel, ccp, ccnp),
            ).modify(Reg::Smcr, slave_change(trigger, slave_mode));
            &&& after.field(channel.selection_field()) == mode.code()
            &&& after.field(channel.polarity_field()) == flag(ccp.bit())
            &&& has_complementary(mcu, channel) || channel != TimChannel::C4 ==> after.field(
                channel.complementary_field(),
            ) == flag(ccnp.bit())
            &&& channel != TimChannel::C4 ==> after.field(Field::Cc1e) == 1 && after.field(
                Field::Cc2e,
            ) == 1
            &&& 8 * after.field(Field::TsHigh) + after.field(Field::Ts) == trigger.code()
            &&& 8 * after.field(Field::SmsHigh) + after.field(Field::Sms) == slave_mode.code()
            &&& only_fields(regs, after, capture_fields(mcu, channel))
        }),
{
    lemma_field_sizes();
    let first = regs.set(channel.selection_field(), mode.code());
    law_set_field(regs, channel.selection_field(), mode.code());
    let change = capture_change(mcu, channel, ccp, ccnp);
    let second = first.modify(Reg::Ccer, change);
    lemma_start(first, Reg::Ccer);
    if channel == TimChannel::C4 {
        if has_complementary(mcu, channel) {
            let c1 = Change::keep().with(Field::Cc4np, flag(ccnp.bit()));
            lemma_step(first, Reg::Ccer, Change::keep(), Field::Cc4np, flag(ccnp.bit()));
            lemma_step(first, Reg::Ccer, c1, Field::Cc4p, flag(ccp.bit()));
        } else {
            lemma_step(first, Reg::Ccer, Change::keep(), Field::Cc4p, flag(ccp.bit()));
        }
    } else {
        let c1 = Change::keep().with(channel.polarity_field(), flag(ccp.bit()));
        let c2 = c1.with(channel.complementary_field(), flag(ccnp.bit()));
        let c3 = c2.with(Field::Cc1e, 1);
        lemma_step(
            first,
            Reg::Ccer,
            Change::keep(),
            channel.polarity_field(),
            flag(ccp.bit()),
        );
        lemma_step(first, Reg::Ccer, c1, channel.complementary_field(), flag(ccnp.bit()));
        lemma_step(first, Reg::Ccer, c2, Field::Cc1e, 1);
        lemma_step(first, Reg::Ccer, c3, Field::Cc2e, 1);
    }
    law_slave_mode_reads_back(second, trigger, slave_mode);
}

/// A duty that was set is the duty that is read, and neither the duty of another channel nor
/// the maximum duty changes.
pub proof fn law_duty_reads_back(
    regs: RegState,
    peripheral: Peripheral,
    channel: TimChannel,
    duty: u32,
)
    requires
        duty <= peripheral.max_value(),
    ensures
        ({
            let after = regs.write(channel.compare_reg(), duty);
            &&& peripheral.is_readable(after.get(channel.compare_reg()))
            &&& peripheral.value_in(after.get(channel.compare_reg())) == duty
            &&& forall|other: TimChannel|
                other != channel ==> #[trigger] after.get(other.compare_reg()) == regs.get(
                    other.compare_reg(),
                )
            &&& after.get(Reg::Arr) == regs.get(Reg::Arr)
        }),
{
}

/// The auto-reload value and the prescaler that were set for a frequency are what the
/// registers hold, and the maximum duty is that auto-reload value. Without such values nothing
/// changes.
pub proof fn law_freq_reads_back(
    regs: RegState,
    peripheral: Peripheral,
    vals: Result<(u16, u16), ValueError>,
)
    ensures
        vals matches Ok((psc, arr)) ==> {
            let after = freq_set(regs, vals);
            &&& after.get(Reg::Psc) == psc
            &&& after.get(Reg::Arr) == arr
            &&& peripheral.is_readable(after.get(Reg::Arr))
            &&& peripheral.value_in(after.get(Reg::Arr)) == arr
            &&& forall|other: Reg|
                other != Reg::Psc && other != Reg::Arr ==> #[trigger] after.get(other) == regs.get(
                    other,
                )
        },
        vals is Err ==> freq_set(regs, vals) == regs,
{
}

/// A timer that was enabled is enabled; once it is disabled it is not, whatever it was before.
/// Neither changes anything else.
pub proof fn law_enable_and_disable(regs: RegState)
    ensures
        regs.set(Field::Cen, 1).field(Field::Cen) == 1,
        regs.set(Field::Cen, 0).field(Field::Cen) == 0,
        only_fields(regs, regs.set(Field::Cen, 0), set![Field::Cen]),
        only_fields(regs, regs.set(Field::Cen, 1), set![Field::Cen]),
{
    lemma_field_sizes();
    law_set_field(regs, Field::Cen, 0);
    law_set_field(regs, Field::Cen, 1);
}

/// Putting a field's own value back leaves its register as it was.
proof fn lemma_restore(regs: RegState, field: Field, value: u32)
    ensures
        regs.set(field, value).set(field, regs.field(field)).values == regs.values,
{
    let word = regs.get(field.reg());
    let own = regs.field(field);
    let changed = field.put(word, value);
    lemma_keep(word);
    lemma_keep(changed);
    lemma_with(Change::keep(), field, value, word);
    lemma_with(Change::keep(), field, own, changed);
    bits::lemma_insert_twice(word, field.span().0, field.span().1, value, own);
    bits::lemma_insert_extract(word, field.span().0, field.span().1);
    assert(regs.set(field, value).set(field, own).values =~= regs.values);
}

/// Disabling capture/compare undoes enabling it: a channel that was off before has its
/// registers back. The other way round, enabling undoes disabling a channel that was on.
pub proof fn law_capture_compare_undone(regs: RegState, channel: TimChannel)
    ensures
        regs.set(channel.enable_field(), 1).field(channel.enable_field()) == 1,
        regs.set(channel.enable_field(), 0).field(channel.enable_field()) == 0,
        regs.field(channel.enable_field()) == 0 ==> regs.set(channel.enable_field(), 1).set(
            channel.enable_field(),
            0,
        ).values == regs.values,
        regs.field(channel.enable_field()) == 1 ==> regs.set(channel.enable_field(), 0).set(
            channel.enable_field(),
            1,
        ).values == regs.values,
{
    lemma_field_sizes();
    law_set_field(regs, channel.enable_field(), 0);
    law_set_field(regs, channel.enable_field(), 1);
    lemma_restore(regs, channel.enable_field(), 1);
    lemma_restore(regs, channel.enable_field(), 0);
}

/// Disabling an interrupt undoes enabling it, and leaves the other interrupt alone.
pub proof fn law_interrupt_undone(
    regs: RegState,
    interrupt: TimerInterrupt,
    other: TimerInterrupt,
)
    requires
        interrupt_field(interrupt) != interrupt_field(other),
    ensures
        ({
            let field = interrupt_field(interrupt);
            let enabled = regs.set(field, 1);
            let disabled = enabled.set(field, 0);
            &&& enabled.field(field) == 1
            &&& disabled.field(field) == 0
            &&& regs.field(field) == 0 ==> disabled.values == regs.values
            &&& enabled.field(interrupt_field(other)) == regs.field(interrupt_field(other))
        }),
{
    lemma_field_sizes();
    let field = interrupt_field(interrupt);
    law_set_field(regs, field, 1);
    law_set_field(regs.set(field, 1), field, 0);
    lemma_restore(regs, field, 1);
}

/// The polarity and the complementary polarity of a channel read back, and neither touches the
/// other, another channel, or which channels are on.
pub proof fn law_polarity_reads_back(
    regs: RegState,
    channel: TimChannel,
    polarity: Polarity,
    complementary: Polarity,
)
    ensures
        ({
            let after = regs.set(channel.polarity_field(), flag(polarity.bit())).set(
                channel.complementary_field(),
                flag(complementary.bit()),
            );
            &&& after.field(channel.polarity_field()) == flag(polarity.bit())
            &&& after.field(channel.complementary_field()) == flag(complementary.bit())
            &&& only_fields(
                regs,
                after,
                set![channel.polarity_field(), channel.complementary_field()],
            )
        }),
{
    lemma_field_sizes();
    let first = regs.set(channel.polarity_field(), flag(polarity.bit()));
    law_set_field(regs, channel.polarity_field(), flag(polarity.bit()));
    law_set_field(first, channel.complementary_field(), flag(complementary.bit()));
}

/// What a channel is selected for reads back, and no other field changes.
pub proof fn law_capture_compare_reads_back(
    regs: RegState,
    channel: TimChannel,
    mode: CaptureCompare,
)
    ensures
        regs.set(channel.selection_field(), mode.code()).field(channel.selection_field())
            == mode.code(),
        only_fields(
            regs,
            regs.set(channel.selection_field(), mode.code()),
            set![channel.selection_field()],
        ),
{
    lemma_field_sizes();
    law_set_field(regs, channel.selection_field(), mode.code());
}

/// After the direction and the alignment are set, the CR1 register of a timer with four
/// channels agrees with the configuration; setting the alignment alone brings its field in
/// line with the new one. No other field changes.
pub proof fn law_alignment_agrees(regs: RegState, cfg: TimerConfig, alignment: Alignment)
    ensures
        dir_set(regs, Channels::Four, cfg).field(Field::Dir) == cfg.direction.code(),
        dir_set(regs, Channels::Four, cfg).field(Field::Cms) == cfg.alignment.code(),
        only_fields(regs, dir_set(regs, Channels::Four, cfg), set![Field::Dir, Field::Cms]),
        regs.set(Field::Cms, alignment.code()).field(Field::Cms) == alignment.code(),
        only_fields(regs, regs.set(Field::Cms, alignment.code()), set![Field::Cms]),
{
    lemma_field_sizes();
    let first = regs.set(Field::Dir, cfg.direction.code());
    law_set_field(regs, Field::Dir, cfg.direction.code());
    law_set_field(first, Field::Cms, cfg.alignment.code());
    law_set_field(regs, Field::Cms, alignment.code());
}

/// Of the status flags, only the update flag is cleared: every other bit is written as 1.
pub proof fn law_only_update_flag_cleared(i: u32)
    requires
        i < 32,
    ensures
        bits::bit_set(CLEAR_UPDATE, i) <==> i != 0,
        Field::Uif.of(CLEAR_UPDATE) == 0,
{
    assert(((0xffff_fffeu32 >> i) & 1u32 == 1u32) <==> i != 0u32) by (bit_vector)
        requires
            i < 32,
    ;
    assert(bits::extract(0xffff_fffeu32, 0, 1) == 0) by (bit_vector);
}

/// Re-initializing generates an update event and then clears the flag that it raises, as the
/// last two accesses, and changes no other register.
pub proof fn law_reinitialize(regs: RegState)
    ensures
        Field::Ug.of(reinitialized(regs).get(Reg::Egr)) == 1,
        reinitialized(regs).log == regs.log.push(Access::Write { reg: Reg::Egr, value: 1 }).push(
            Access::Write { reg: Reg::Sr, value: CLEAR_UPDATE },
        ),
        forall|other: Reg|
            other != Reg::Egr && other != Reg::Sr ==> #[trigger] reinitialized(regs).get(other)
                == regs.get(other),
{
    assert(bits::extract(1, 0, 1) == 1) by (bit_vector);
}

/// A preload setting reads back. It is followed by an update event. Apart from the event and
/// status registers, no other field changes.
pub proof fn law_preload_reads_back(regs: RegState, channel: TimChannel, value: bool)
    ensures
        preload_set(regs, channel, value).field(channel.preload_field()) == flag(value),
        only_fields(
            regs,
            preload_set(regs, channel, value),
            set![channel.preload_field(), Field::Ug, Field::Uif],
        ),
{
    lemma_field_sizes();
    let first = regs.set(channel.preload_field(), flag(value));
    let after = preload_set(regs, channel, value);
    law_set_field(regs, channel.preload_field(), flag(value));
    law_reinitialize(first);
    assert forall|other: Field|
        !set![channel.preload_field(), Field::Ug, Field::Uif].contains(
            other,
        ) implies #[trigger] after.field(other) == regs.field(other) by {
        assert(other.reg() != Reg::Egr && other.reg() != Reg::Sr);
        assert(after.get(other.reg()) == first.get(other.reg()));
        assert(first.field(other) == regs.field(other));
    }
}

/// PWM output, once enabled: the channel is preloaded, has the requested mode and duty, and is
/// turned on.
pub proof fn law_pwm_output(
    regs: RegState,
    peripheral: Peripheral,
    channel: TimChannel,
    compare: OutputCompare,
    duty: u32,
)
    requires
        peripheral.has(channel),
        duty <= peripheral.max_value(),
    ensures
        ({
            let after = output_compare_set(
                preload_set(regs, channel, true),
                peripheral,
                channel,
                compare,
            ).write(channel.compare_reg(), duty).set(channel.enable_field(), 1);
            &&& after.field(channel.preload_field()) == 1
            &&& after.field(channel.mode_field()) == compare.code() % 8
            &&& has_mode_high(peripheral.mcu, peripheral.channels(), channel) ==> 8 * after.field(
                channel.mode_high_field(),
            ) + after.field(channel.mode_field()) == compare.code()
            &&& peripheral.value_in(after.get(channel.compare_reg())) == duty
            &&& after.field(channel.enable_field()) == 1
            &&& after.get(Reg::Arr) == regs.get(Reg::Arr)
        }),
{
    lemma_field_sizes();
    let first = preload_set(regs, channel, true);
    let second = output_compare_set(first, peripheral, channel, compare);
    let third = second.write(channel.compare_reg(), duty);
    let after = third.set(channel.enable_field(), 1);
    law_preload_reads_back(regs, channel, true);
    law_output_compare_reads_back(first, peripheral, channel, compare);
    law_set_field(third, channel.enable_field(), 1);
    let mode_reg = channel.mode_field().reg();
    assert(second.field(channel.preload_field()) == 1);
    assert(third.get(mode_reg) == second.get(mode_reg));
    assert(after.get(mode_reg) == third.get(mode_reg));
    assert(after.get(channel.compare_reg()) == third.get(channel.compare_reg()));
    assert(after.get(Reg::Arr) == third.get(Reg::Arr));
}

/// The configuration reads back after initialization: one-pulse mode and capture/compare DMA
/// selection except on the F373, the update request source, the auto-reload preload, and, on a
/// timer with four channels, direction and alignment. So do the prescaler and the auto-reload
/// value, where there are any. Whether the counter runs is left as it was.
pub proof fn law_initialization_reads_back(
    regs: RegState,
    mcu: Mcu,
    channels: Channels,
    vals: Result<(u16, u16), ValueError>,
    cfg: TimerConfig,
)
    ensures
        ({
            let after = initialized(regs, mcu, channels, vals, cfg);
            &&& mcu != Mcu::F373 ==> after.field(Field::Opm) == flag(cfg.one_pulse_mode)
            &&& mcu != Mcu::F373 ==> after.field(Field::Ccds) == cfg.capture_compare_dma.code()
            &&& mcu == Mcu::F373 ==> after.field(Field::Opm) == regs.field(Field::Opm)
            &&& mcu == Mcu::F373 ==> after.field(Field::Ccds) == regs.field(Field::Ccds)
            &&& after.field(Field::Urs) == cfg.update_request_source.code()
            &&& after.field(Field::Arpe) == flag(cfg.auto_reload_preload)
            &&& channels == Channels::Four ==> after.field(Field::Dir) == cfg.direction.code()
            &&& channels == Channels::Four ==> after.field(Field::Cms) == cfg.alignment.code()
            &&& after.field(Field::Cen) == regs.field(Field::Cen)
            &&& vals matches Ok((psc, arr)) ==> after.get(Reg::Psc) == psc && after.get(Reg::Arr)
                == arr
            &&& vals is Err ==> after.get(Reg::Psc) == regs.get(Reg::Psc) && after.get(Reg::Arr)
                == regs.get(Reg::Arr)
        }),
{
    lemma_field_sizes();
    let one_pulse = flag(cfg.one_pulse_mode);
    let source = cfg.update_request_source.code();
    let preload = flag(cfg.auto_reload_preload);
    let start = if mcu == Mcu::F373 {
        Change::keep()
    } else {
        Change::keep().with(Field::Opm, one_pulse)
    };
    let control = regs.modify(Reg::Cr1, config_change(mcu, cfg));
    lemma_start(regs, Reg::Cr1);
    if mcu != Mcu::F373 {
        lemma_step(regs, Reg::Cr1, Change::keep(), Field::Opm, one_pulse);
    }
    lemma_step(regs, Reg::Cr1, start, Field::Urs, source);
    lemma_step(regs, Reg::Cr1, start.with(Field::Urs, source), Field::Arpe, preload);
    let first = configured(regs, mcu, cfg);
    if mcu != Mcu::F373 {
        law_set_field(control, Field::Ccds, cfg.capture_compare_dma.code());
    }
    assert(first.field(Field::Cen) == regs.field(Field::Cen));
    assert(first.field(Field::Urs) == source && first.field(Field::Arpe) == preload);
    assert(mcu != Mcu::F373 ==> control.field(Field::Opm) == one_pulse);
    assert(mcu != Mcu::F373 ==> first.field(Field::Opm) == one_pulse);
    assert(mcu == Mcu::F373 ==> first.field(Field::Opm) == regs.field(Field::Opm));
    assert(mcu == Mcu::F373 ==> first.field(Field::Ccds) == regs.field(Field::Ccds));
    assert(control.get(Reg::Arr) == regs.get(Reg::Arr));
    assert(control.get(Reg::Psc) == regs.get(Reg::Psc));
    let second = freq_set(first, vals);
    assert(second.get(Reg::Cr1) == first.get(Reg::Cr1));
    assert(second.get(Reg::Cr2) == first.get(Reg::Cr2));
    let third = dir_set(second, channels, cfg);
    if channels == Channels::Four {
        law_alignment_agrees(second, cfg, cfg.alignment);
        let between = second.set(Field::Dir, cfg.direction.code());
        law_set_field(second, Field::Dir, cfg.direction.code());
        law_set_field(between, Field::Cms, cfg.alignment.code());
    }
    assert(third.field(Field::Opm) == second.field(Field::Opm));
    assert(third.field(Field::Urs) == second.field(Field::Urs));
    assert(third.field(Field::Arpe) == second.field(Field::Arpe));
    assert(third.field(Field::Cen) == second.field(Field::Cen));
    assert(third.get(Reg::Cr2) == second.get(Reg::Cr2));
    assert(third.get(Reg::Arr) == second.get(Reg::Arr));
    assert(third.get(Reg::Psc) == second.get(Reg::Psc));
    law_reinitialize(third);
    let after = initialized(regs, mcu, channels, vals, cfg);
    assert(after.get(Reg::Cr1) == third.get(Reg::Cr1));
    assert(after.get(Reg::Cr2) == third.get(Reg::Cr2));
}

/// The configuration that a timer was initialized with is still in force once the timer is
/// enabled: one-pulse mode except on the F373, the update request source, the auto-reload
/// preload, and, on a timer with four channels, direction and alignment.
pub proof fn law_configuration_survives_enable(
    regs: RegState,
    mcu: Mcu,
    channels: Channels,
    vals: Result<(u16, u16), ValueError>,
    cfg: TimerConfig,
)
    ensures
        ({
            let after = initialized(regs, mcu, channels, vals, cfg).set(Field::Cen, 1);
            &&& after.field(Field::Cen) == 1
            &&& mcu != Mcu::F373 ==> after.field(Field::Opm) == flag(cfg.one_pulse_mode)
            &&& after.field(Field::Urs) == cfg.update_request_source.code()
            &&& after.field(Field::Arpe) == flag(cfg.auto_reload_preload)
            &&& channels == Channels::Four ==> after.field(Field::Dir) == cfg.direction.code()
            &&& channels == Channels::Four ==> after.field(Field::Cms) == cfg.alignment.code()
        }),
{
    law_initialization_reads_back(regs, mcu, channels, vals, cfg);
    law_enable_and_disable(initialized(regs, mcu, channels, vals, cfg));
}

/// The base address and the length of a DMA burst read back, for the addresses and lengths
/// that the registers can hold, and the timer is enabled.
pub proof fn law_burst_reads_back(regs: RegState, base_address: u8, burst_len: u8)
    requires
        base_address < 32,
        1 <= burst_len <= 32,
    ensures
        burst_set(regs, base_address, burst_len).field(Field::Dba) == base_address,
        burst_set(regs, base_address, burst_len).field(Field::Dbl) + 1 == burst_len,
        burst_set(regs, base_address, burst_len).field(Field::Cen) == 1,
{
    lemma_field_sizes();
    let base = base_address as u32;
    let len = (burst_len - 1) as u32;
    lemma_start(regs, Reg::Dcr);
    lemma_step(regs, Reg::Dcr, Change::keep(), Field::Dba, base);
    lemma_step(regs, Reg::Dcr, Change::keep().with(Field::Dba, base), Field::Dbl, len);
    let first = regs.modify(
        Reg::Dcr,
        Change::keep().with(Field::Dba, base).with(Field::Dbl, len),
    );
    law_enable_and_disable(first);
    assert(first.field(Field::Dba) == base);
    assert(burst_set(regs, base_address, burst_len).get(Reg::Dcr) == first.get(Reg::Dcr));
}

/// While a delay runs the timer is enabled, and the counter starts from 0. When it is over, the
/// timer is disabled.
pub proof fn law_delay(regs: RegState, vals: Result<(u16, u16), ValueError>)
    ensures
        ({
            let begun = freq_set(regs, vals).write(Reg::Cnt, 0).set(Field::Cen, 1);
            &&& begun.field(Field::Cen) == 1
            &&& begun.get(Reg::Cnt) == 0
            &&& begun.set(Field::Cen, 0).field(Field::Cen) == 0
        }),
{
    let counted = freq_set(regs, vals).write(Reg::Cnt, 0);
    law_enable_and_disable(counted);
    law_enable_and_disable(counted.set(Field::Cen, 1));
}

/// Different settings have different numbers.
pub proof fn law_codes_are_distinct()
    ensures
        forall|a: InputTrigger, b: InputTrigger| #[trigger]
            a.code() == #[trigger] b.code() ==> a == b,
        forall|a: InputSlaveMode, b: InputSlaveMode| #[trigger]
            a.code() == #[trigger] b.code() ==> a == b,
        forall|a: OutputCompare, b: OutputCompare| #[trigger]
            a.code() == #[trigger] b.code() ==> a == b,
        forall|a: CaptureCompare, b: CaptureCompare| #[trigger]
            a.code() == #[trigger] b.code() ==> a == b,
        forall|a: MasterModeSelection, b: MasterModeSelection| #[trigger]
            a.code() == #[trigger] b.code() ==> a == b,
        forall|a: Alignment, b: Alignment| #[trigger] a.code() == #[trigger] b.code() ==> a == b,
        forall|a: CountDir, b: CountDir| #[trigger] a.code() == #[trigger] b.code() ==> a == b,
        forall|a: UpdateReqSrc, b: UpdateReqSrc| #[trigger]
            a.code() == #[trigger] b.code() ==> a == b,
        forall|a: CaptureCompareDma, b: CaptureCompareDma| #[trigger]
            a.code() == #[trigger] b.code() ==> a == b,
{
}

/// The master mode reads back, and no other field changes.
pub proof fn law_master_mode_reads_back(regs: RegState, mode: MasterModeSelection)
    ensures
        regs.set(Field::Mms, mode.code()).field(Field::Mms) == mode.code(),
        only_fields(regs, regs.set(Field::Mms, mode.code()), set![Field::Mms]),
{
    lemma_field_sizes();
    law_set_field(regs, Field::Mms, mode.code());
}

/// Going forward by a duration and back by the same one leads to where one was.
pub proof fn law_add_then_sub(instant: Instant, duration: Duration)
    requires
        AddSpec::add_req(instant, duration),
    ensures
        SubSpec::sub_req(AddSpec::add_spec(instant, duration), duration),
        SubSpec::sub_spec(AddSpec::add_spec(instant, duration), duration) == instant,
{
}

/// The time that has passed since an instant a duration ago is that duration, in whole
/// microseconds and of these the lowest 64 bits.
pub proof fn law_elapsed(instant: Instant, duration: Duration)
    requires
        AddSpec::add_req(instant, duration),
    ensures
        SubSpec::sub_req(AddSpec::add_spec(instant, duration), instant),
        SubSpec::sub_spec(AddSpec::add_spec(instant, duration), instant) == duration_of_micros(
            wrap_u64(whole_micros(duration) as int) as u64,
        ),
{
}

/// Instants have microsecond precision: a part of a duration below one microsecond is dropped.
pub proof fn law_microsecond_precision(instant: Instant, longer: Duration, whole: Duration)
    requires
        nanos_in(whole) % 1_000 == 0,
        nanos_in(whole) <= nanos_in(longer) < nanos_in(whole) + 1_000,
    ensures
        AddSpec::add_spec(instant, longer) == AddSpec::add_spec(instant, whole),
        SubSpec::sub_spec(instant, longer) == SubSpec::sub_spec(instant, whole),
{
    assert(whole_micros(longer) == whole_micros(whole));
}

/// A duration of at least one microsecond, up to what an instant can count, leads to a later
/// instant, as many microseconds away as it has, and going back by it to an earlier one.
pub proof fn law_later_and_earlier(instant: Instant, duration: Duration)
    requires
        0 < whole_micros(duration) <= i64::MAX,
    ensures
        AddSpec::add_req(instant, duration) <==> instant.count_us + whole_micros(duration)
            <= i64::MAX,
        AddSpec::add_req(instant, duration) ==> AddSpec::add_spec(instant, duration).count_us
            - instant.count_us == whole_micros(duration) && order_of(
            instant,
            AddSpec::add_spec(instant, duration),
        ) == Ordering::Less,
        SubSpec::sub_req(instant, duration) <==> instant.count_us - whole_micros(duration)
            >= i64::MIN,
        SubSpec::sub_req(instant, duration) ==> instant.count_us - SubSpec::sub_spec(
            instant,
            duration,
        ).count_us == whole_micros(duration) && order_of(
            instant,
            SubSpec::sub_spec(instant, duration),
        ) == Ordering::Greater,
        1_000 * whole_micros(duration) <= nanos_in(duration) < 1_000 * whole_micros(duration)
            + 1_000,
{
}

/// The time from one instant to a later one is the difference of their counts. It can be taken
/// whenever the difference can be counted.
pub proof fn law_time_between(earlier: Instant, later: Instant)
    requires
        earlier.count_us <= later.count_us,
    ensures
        SubSpec::sub_req(later, earlier) <==> later.count_us - earlier.count_us <= i64::MAX,
        SubSpec::sub_spec(later, earlier) == duration_of_micros(
            (later.count_us - earlier.count_us) as u64,
        ),
{
}

/// Whatever the duration, the count changes by its whole microseconds, up to a multiple of 2 to
/// the power of 64. The same holds of the microseconds from one instant to another.
pub proof fn law_counts_modulo(instant: Instant, other: Instant, duration: Duration)
    ensures
        AddSpec::add_req(instant, duration) ==> (AddSpec::add_spec(instant, duration).count_us
            - instant.count_us - whole_micros(duration)) % 0x1_0000_0000_0000_0000 == 0,
        SubSpec::sub_req(instant, duration) ==> (instant.count_us - SubSpec::sub_spec(
            instant,
            duration,
        ).count_us - whole_micros(duration)) % 0x1_0000_0000_0000_0000 == 0,
        instant.count_us < other.count_us ==> SubSpec::sub_spec(instant, other)
            == duration_of_micros(
            (instant.count_us - other.count_us + 0x1_0000_0000_0000_0000) as u64,
        ),
        SubSpec::sub_req(instant, other) <==> i64::MIN <= instant.count_us - other.count_us
            <= i64::MAX,
{
}

/// Numbers too large for 64 bits lose a multiple of 2 to the power of 64, and are then in range.
pub proof fn law_wrapping(n: int)
    ensures
        (n - wrap_i64(n)) % 0x1_0000_0000_0000_0000 == 0,
        i64::MIN <= wrap_i64(n) <= i64::MAX,
        (n - wrap_u64(n)) % 0x1_0000_0000_0000_0000 == 0,
        0 <= wrap_u64(n) <= u64::MAX,
{
}

/// The comparison of instants goes by their counts.
pub proof fn law_comparison(a: Instant, b: Instant)
    ensures
        Instant::obeys_partial_cmp_spec(),
        a.partial_cmp_spec(&b) == Some(Ordering::Less) <==> a.count_us < b.count_us,
        a.partial_cmp_spec(&b) == Some(Ordering::Greater) <==> a.count_us > b.count_us,
        a.partial_cmp_spec(&b) == Some(Ordering::Equal) <==> a == b,
        order_of(a, b) == Ordering::Less <==> a.count_us < b.count_us,
{
}

/// Instants are totally ordered: of two, one is before the other or they are equal, and before
/// is transitive.
pub proof fn law_instants_are_ordered(a: Instant, b: Instant, c: Instant)
    ensures
        order_of(a, b) == Ordering::Equal <==> a == b,
        order_of(a, b) == Ordering::Less <==> order_of(b, a) == Ordering::Greater,
        order_of(a, b) == Ordering::Less && order_of(b, c) == Ordering::Less ==> order_of(a, c)
            == Ordering::Less,
{
}

} // verus!
