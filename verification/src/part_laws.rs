//! Which timers, channels and options each microcontroller has, told from the microcontroller's
//! side.

use vstd::prelude::*;

use crate::channel::{has_channel, has_complementary, has_mode_high};
use crate::config::{TimChannel, TimerInterrupt};
use crate::dma::has_dma_burst;
use crate::mcu::{
    apb_of, channels_of, has_basic_timers, resolution_of, timer_layout, Apb, Channels, Clocks,
    Family, Mcu, TimerId,
};
use crate::timer::Peripheral;

verus! {

/// Each family consists of these microcontrollers.
pub proof fn law_families(mcu: Mcu)
    ensures
        mcu.family() == Family::F3 <==> mcu == Mcu::F301 || mcu == Mcu::F303 || mcu == Mcu::F373
            || mcu == Mcu::F3x4 || mcu == Mcu::F3,
        mcu.family() == Family::F4 <==> mcu == Mcu::F401 || mcu == Mcu::F410 || mcu == Mcu::F411
            || mcu == Mcu::F413 || mcu == Mcu::F4,
        mcu.family() == Family::G0 <==> mcu == Mcu::G030 || mcu == Mcu::G031 || mcu == Mcu::G041
            || mcu == Mcu::G070 || mcu == Mcu::G0,
        mcu.family() == Family::G4 <==> mcu == Mcu::G473 || mcu == Mcu::G474 || mcu == Mcu::G483
            || mcu == Mcu::G484 || mcu == Mcu::G4,
        mcu.family() == Family::H7 <==> mcu == Mcu::H7,
        mcu.family() == Family::L4 <==> mcu == Mcu::L412 || mcu == Mcu::L4x1 || mcu == Mcu::L4x2
            || mcu == Mcu::L4x3 || mcu == Mcu::L4x5 || mcu == Mcu::L4x6 || mcu == Mcu::L4,
        mcu.family() == Family::L5 <==> mcu == Mcu::L552 || mcu == Mcu::L562,
        mcu.family() == Family::Wb <==> mcu == Mcu::Wb55 || mcu == Mcu::Wb,
        mcu.family() == Family::Wl <==> mcu == Mcu::Wl,
{
}

/// Each microcontroller has these timers and no others.
pub proof fn law_timers(mcu: Mcu, id: TimerId)
    ensures
        mcu == Mcu::F301 ==> (timer_layout(mcu, id) is Some <==> id == TimerId::Tim1 || id ==
            TimerId::Tim2 || id == TimerId::Tim15 || id == TimerId::Tim16 || id ==
            TimerId::Tim17),
        mcu == Mcu::F303 ==> (timer_layout(mcu, id) is Some <==> id == TimerId::Tim1 || id ==
            TimerId::Tim2 || id == TimerId::Tim3 || id == TimerId::Tim4 || id == TimerId::Tim8 ||
            id == TimerId::Tim15 || id == TimerId::Tim16 || id == TimerId::Tim17 || id ==
            TimerId::Tim20),
        mcu == Mcu::F373 ==> (timer_layout(mcu, id) is Some <==> id == TimerId::Tim2 || id ==
            TimerId::Tim3 || id == TimerId::Tim4 || id == TimerId::Tim5 || id == TimerId::Tim12 ||
            id == TimerId::Tim13 || id == TimerId::Tim14 || id == TimerId::Tim15 || id ==
            TimerId::Tim16 || id == TimerId::Tim17 || id == TimerId::Tim19),
        mcu == Mcu::F3x4 ==> (timer_layout(mcu, id) is Some <==> id == TimerId::Tim1 || id ==
            TimerId::Tim2 || id == TimerId::Tim3 || id == TimerId::Tim15 || id == TimerId::Tim16
            || id == TimerId::Tim17),
        mcu == Mcu::F3 ==> (timer_layout(mcu, id) is Some <==> id == TimerId::Tim1 || id ==
            TimerId::Tim2 || id == TimerId::Tim3 || id == TimerId::Tim4 || id == TimerId::Tim15 ||
            id == TimerId::Tim16 || id == TimerId::Tim17),
        (mcu == Mcu::F401 || mcu == Mcu::F411 || mcu == Mcu::F413 || mcu == Mcu::F4) ==>
            (timer_layout(mcu, id) is Some <==> id == TimerId::Tim1 || id == TimerId::Tim2 || id
            == TimerId::Tim3 || id == TimerId::Tim4 || id == TimerId::Tim5),
        mcu == Mcu::F410 ==> (timer_layout(mcu, id) is Some <==> id == TimerId::Tim1),
        (mcu == Mcu::G030 || mcu == Mcu::G031 || mcu == Mcu::G041) ==> (timer_layout(mcu, id) is
            Some <==> id == TimerId::Tim1 || id == TimerId::Tim2 || id == TimerId::Tim3 || id ==
            TimerId::Tim16 || id == TimerId::Tim17),
        mcu == Mcu::G070 ==> (timer_layout(mcu, id) is Some <==> id == TimerId::Tim1 || id ==
            TimerId::Tim3 || id == TimerId::Tim15 || id == TimerId::Tim16 || id ==
            TimerId::Tim17),
        mcu == Mcu::G0 ==> (timer_layout(mcu, id) is Some <==> id == TimerId::Tim1 || id ==
            TimerId::Tim2 || id == TimerId::Tim3 || id == TimerId::Tim15 || id == TimerId::Tim16
            || id == TimerId::Tim17),
        (mcu == Mcu::G473 || mcu == Mcu::G474 || mcu == Mcu::G483 || mcu == Mcu::G484) ==>
            (timer_layout(mcu, id) is Some <==> id == TimerId::Tim1 || id == TimerId::Tim2 || id
            == TimerId::Tim3 || id == TimerId::Tim4 || id == TimerId::Tim5 || id == TimerId::Tim15
            || id == TimerId::Tim16 || id == TimerId::Tim17),
        mcu == Mcu::G4 ==> (timer_layout(mcu, id) is Some <==> id == TimerId::Tim1 || id ==
            TimerId::Tim2 || id == TimerId::Tim3 || id == TimerId::Tim4 || id == TimerId::Tim15 ||
            id == TimerId::Tim16 || id == TimerId::Tim17),
        mcu == Mcu::H7 ==> (timer_layout(mcu, id) is Some <==> id == TimerId::Tim1 || id ==
            TimerId::Tim2 || id == TimerId::Tim3 || id == TimerId::Tim4 || id == TimerId::Tim5 ||
            id == TimerId::Tim8 || id == TimerId::Tim15 || id == TimerId::Tim16 || id ==
            TimerId::Tim17),
        (mcu == Mcu::L412 || mcu == Mcu::L4x2) ==> (timer_layout(mcu, id) is Some <==> id ==
            TimerId::Tim1 || id == TimerId::Tim2 || id == TimerId::Tim3 || id == TimerId::Tim15 ||
            id == TimerId::Tim16),
        (mcu == Mcu::L4x1 || mcu == Mcu::L4x3) ==> (timer_layout(mcu, id) is Some <==> id ==
            TimerId::Tim1 || id == TimerId::Tim2 || id == TimerId::Tim15 || id == TimerId::Tim16),
        (mcu == Mcu::L4x5 || mcu == Mcu::L4x6) ==> (timer_layout(mcu, id) is Some <==> id ==
            TimerId::Tim1 || id == TimerId::Tim2 || id == TimerId::Tim3 || id == TimerId::Tim4 ||
            id == TimerId::Tim5 || id == TimerId::Tim8 || id == TimerId::Tim15 || id ==
            TimerId::Tim16 || id == TimerId::Tim17),
        mcu == Mcu::L4 ==> (timer_layout(mcu, id) is Some <==> id == TimerId::Tim1 || id ==
            TimerId::Tim2 || id == TimerId::Tim3 || id == TimerId::Tim4 || id == TimerId::Tim15 ||
            id == TimerId::Tim16 || id == TimerId::Tim17),
        mcu == Mcu::L552 ==> (timer_layout(mcu, id) is Some <==> id == TimerId::Tim1 || id ==
            TimerId::Tim16 || id == TimerId::Tim17),
        mcu == Mcu::L562 ==> (timer_layout(mcu, id) is Some <==> id == TimerId::Tim1 || id ==
            TimerId::Tim8 || id == TimerId::Tim16 || id == TimerId::Tim17),
        mcu == Mcu::Wb55 ==> (timer_layout(mcu, id) is Some <==> id == TimerId::Tim1 || id ==
            TimerId::Tim16 || id == TimerId::Tim17),
        mcu == Mcu::Wb ==> (timer_layout(mcu, id) is Some <==> id == TimerId::Tim1 || id ==
            TimerId::Tim2 || id == TimerId::Tim16 || id == TimerId::Tim17),
        mcu == Mcu::Wl ==> (timer_layout(mcu, id) is Some <==> id == TimerId::Tim1 || id ==
            TimerId::Tim2 || id == TimerId::Tim16 || id == TimerId::Tim17),
{
}

/// The timers 2 to 5 and 12 to 14 run with the clock of the first peripheral bus, all others
/// with the clock of the second.
pub proof fn law_clocks(clocks: Clocks, mcu: Mcu, id: TimerId)
    ensures
        id == TimerId::Tim2 || id == TimerId::Tim3 || id == TimerId::Tim4 || id == TimerId::Tim5
            || id == TimerId::Tim12 || id == TimerId::Tim13 || id == TimerId::Tim14
            ==> clocks.timer_clock(apb_of(id)) == clocks.apb1_timer,
        id == TimerId::Tim1 || id == TimerId::Tim8 || id == TimerId::Tim15 || id == TimerId::Tim16
            || id == TimerId::Tim17 || id == TimerId::Tim19 || id == TimerId::Tim20
            ==> clocks.timer_clock(apb_of(id)) == clocks.apb2_timer,
        clocks.timer_clock(Apb::Apb1) == clocks.apb1_timer,
        clocks.timer_clock(Apb::Apb2) == clocks.apb2_timer,
        timer_layout(mcu, id) matches Some(layout) ==> layout.apb == apb_of(id),
{
}

/// The timers 2 to 5 count with 32 bits, all others with 16: a value is within the resolution
/// exactly if it takes no more bits, and reading keeps just these bits.
pub proof fn law_resolutions(peripheral: Peripheral, word: u32)
    ensures
        ({
            let id = peripheral.id;
            if id == TimerId::Tim2 || id == TimerId::Tim3 || id == TimerId::Tim4 || id
                == TimerId::Tim5 {
                peripheral.max_value() == u32::MAX && peripheral.value_in(word) == word
            } else {
                let value = peripheral.value_in(word);
                peripheral.max_value() == u16::MAX && value <= u16::MAX && (word - value) % 0x1_0000
                    == 0
            }
        }),
        word <= peripheral.max_value() ==> peripheral.value_in(word) == word,
        resolution_of(peripheral.id).max() == peripheral.max_value(),
        timer_layout(peripheral.mcu, peripheral.id) matches Some(layout) ==> layout.resolution
            == resolution_of(peripheral.id),
{
}

/// Timer 1 has two channels on the G0 and G4 families and four elsewhere. Timers 2 to 5 and 20
/// have four, and so has timer 8 except on the L5 family. All others have one.
pub proof fn law_channel_counts(mcu: Mcu, id: TimerId)
    ensures
        channels_of(mcu, id) == Channels::Two <==> id == TimerId::Tim1 && (mcu.family()
            == Family::G0 || mcu.family() == Family::G4),
        id == TimerId::Tim12 || id == TimerId::Tim13 || id == TimerId::Tim14 || id
            == TimerId::Tim15 || id == TimerId::Tim16 || id == TimerId::Tim17 || id
            == TimerId::Tim19 ==> channels_of(mcu, id) == Channels::One,
        id == TimerId::Tim2 || id == TimerId::Tim3 || id == TimerId::Tim4 || id == TimerId::Tim5
            || id == TimerId::Tim20 ==> channels_of(mcu, id) == Channels::Four,
        channels_of(mcu, TimerId::Tim1) != Channels::One,
        channels_of(mcu, TimerId::Tim8) == Channels::One <==> mcu == Mcu::L552 || mcu == Mcu::L562,
        timer_layout(mcu, id) matches Some(layout) ==> layout.channels == channels_of(mcu, id),
        forall|clock_speed: u32| #[trigger]
            (Peripheral { mcu, id, clock_speed }).channels() == channels_of(mcu, id),
{
}

/// A timer with so many channels has the ones with the lowest numbers; on the WL family the
/// fourth is missing.
pub proof fn law_channels_present(peripheral: Peripheral, channel: TimChannel)
    ensures
        ({
            let number: int = match channel {
                TimChannel::C1 => 1,
                TimChannel::C2 => 2,
                TimChannel::C3 => 3,
                TimChannel::C4 => 4,
            };
            let count: int = match peripheral.channels() {
                Channels::One => 1,
                Channels::Two => 2,
                Channels::Four => if peripheral.mcu == Mcu::Wl {
                    3
                } else {
                    4
                },
            };
            peripheral.has(channel) <==> number <= count
        }),
        peripheral.has(channel) == has_channel(peripheral.mcu, peripheral.channels(), channel),
{
}

/// The highest bit of the output compare mode, family by family: the F4, L5 and WB families
/// never have it, the G4 and WL families always. On the F3 family only a timer with two channels
/// would have it. The G0 and L4 families lack it on timers with one channel, and the H7 family on
/// channel 4 of timers with four.
pub proof fn law_mode_high_bits(mcu: Mcu, channels: Channels, channel: TimChannel)
    ensures
        ({
            let present = has_mode_high(mcu, channels, channel);
            match mcu.family() {
                Family::F4 | Family::L5 | Family::Wb => !present,
                Family::G4 | Family::Wl => present,
                Family::F3 => present <==> channels == Channels::Two,
                Family::G0 | Family::L4 => !present <==> channels == Channels::One,
                Family::H7 => !present <==> channels == Channels::Four && channel == TimChannel::C4,
            }
        }),
{
}

/// The complementary polarity is missing on channel 4 of the F4, L4 and WL families and nowhere
/// else.
pub proof fn law_complementary_polarities(mcu: Mcu, channel: TimChannel)
    ensures
        channel != TimChannel::C4 ==> has_complementary(mcu, channel),
        match mcu.family() {
            Family::F4 | Family::L4 | Family::Wl => !has_complementary(mcu, TimChannel::C4),
            _ => has_complementary(mcu, TimChannel::C4),
        },
{
}

/// Basic timers, family by family.
pub proof fn law_basic_timers(mcu: Mcu)
    ensures
        match mcu.family() {
            Family::F3 | Family::G4 | Family::H7 | Family::L4 | Family::L5 => has_basic_timers(mcu),
            Family::F4 => has_basic_timers(mcu) <==> mcu == Mcu::F4,
            Family::G0 => has_basic_timers(mcu) <==> mcu == Mcu::G0,
            Family::Wb | Family::Wl => !has_basic_timers(mcu),
        },
{
}

/// DMA bursts, family by family.
pub proof fn law_dma_bursts(mcu: Mcu)
    ensures
        match mcu.family() {
            Family::G4 | Family::H7 | Family::Wb | Family::Wl => has_dma_burst(mcu),
            Family::L5 => has_dma_burst(mcu) <==> mcu == Mcu::L562,
            Family::F3 | Family::F4 | Family::G0 | Family::L4 => !has_dma_burst(mcu),
        },
{
}

/// The update interrupt can be enabled everywhere, the update DMA request except on the F3
/// family, and no other interrupt.
pub proof fn law_interrupts_available(peripheral: Peripheral, interrupt: TimerInterrupt)
    ensures
        peripheral.can_enable(TimerInterrupt::Update),
        !peripheral.can_enable(TimerInterrupt::UpdateDma) <==> peripheral.mcu.family()
            == Family::F3,
        peripheral.can_enable(interrupt) ==> interrupt == TimerInterrupt::Update || interrupt
            == TimerInterrupt::UpdateDma,
{
}

/// A duty can be set on every timer but timer 1 of the G0 family, and read whenever it is within
/// the resolution. Where it is not, it cannot be read on the G0 family and on timer 1 of the G4
/// family; elsewhere it can.
pub proof fn law_duties_available(peripheral: Peripheral, word: u32)
    ensures
        !peripheral.can_set_duty() <==> peripheral.mcu.family() == Family::G0 && peripheral.id
            == TimerId::Tim1,
        word <= peripheral.max_value() ==> peripheral.is_readable(word),
        word > peripheral.max_value() ==> (!peripheral.is_readable(word) <==> peripheral.mcu.family()
            == Family::G0 || (peripheral.mcu.family() == Family::G4 && peripheral.id
            == TimerId::Tim1)),
{
}

} // verus!
