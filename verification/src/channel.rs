//! Where the settings of a channel stand in a timer's registers.

use vstd::prelude::*;

use crate::config::{OutputCompare, TimChannel};
use crate::mcu::{Channels, Family, Mcu};
use crate::registers::{Change, Field, Reg};

verus! {

impl TimChannel {
    pub open spec fn spec_polarity_field(self) -> Field {
        match self {
            TimChannel::C1 => Field::Cc1p,
            TimChannel::C2 => Field::Cc2p,
            TimChannel::C3 => Field::Cc3p,
            TimChannel::C4 => Field::Cc4p,
        }
    }

    /// The CCxP field of a channel.
    #[verifier::when_used_as_spec(spec_polarity_field)]
    pub fn polarity_field(self) -> (field: Field)
        ensures
            field == self.spec_polarity_field(),
    {
        match self {
            TimChannel::C1 => Field::Cc1p,
            TimChannel::C2 => Field::Cc2p,
            TimChannel::C3 => Field::Cc3p,
            TimChannel::C4 => Field::Cc4p,
        }
    }

    pub open spec fn spec_complementary_field(self) -> Field {
        match self {
            TimChannel::C1 => Field::Cc1np,
            TimChannel::C2 => Field::Cc2np,
            TimChannel::C3 => Field::Cc3np,
            TimChannel::C4 => Field::Cc4np,
        }
    }

    /// The CCxNP field of a channel.
    #[verifier::when_used_as_spec(spec_complementary_field)]
    pub fn complementary_field(self) -> (field: Field)
        ensures
            field == self.spec_complementary_field(),
    {
        match self {
            TimChannel::C1 => Field::Cc1np,
            TimChannel::C2 => Field::Cc2np,
            TimChannel::C3 => Field::Cc3np,
            TimChannel::C4 => Field::Cc4np,
        }
    }

    pub open spec fn spec_enable_field(self) -> Field {
        match self {
            TimChannel::C1 => Field::Cc1e,
            TimChannel::C2 => Field::Cc2e,
            TimChannel::C3 => Field::Cc3e,
            TimChannel::C4 => Field::Cc4e,
        }
    }

    /// The CCxE field of a channel.
    #[verifier::when_used_as_spec(spec_enable_field)]
    pub fn enable_field(self) -> (field: Field)
        ensures
            field == self.spec_enable_field(),
    {
        match self {
            TimChannel::C1 => Field::Cc1e,
            TimChannel::C2 => Field::Cc2e,
            TimChannel::C3 => Field::Cc3e,
            TimChannel::C4 => Field::Cc4e,
        }
    }

    pub open spec fn spec_selection_field(self) -> Field {
        match self {
            TimChannel::C1 => Field::Cc1s,
            TimChannel::C2 => Field::Cc2s,
            TimChannel::C3 => Field::Cc3s,
            TimChannel::C4 => Field::Cc4s,
        }
    }

    /// The CCxS field of a channel.
    #[verifier::when_used_as_spec(spec_selection_field)]
    pub fn selection_field(self) -> (field: Field)
        ensures
            field == self.spec_selection_field(),
    {
        match self {
            TimChannel::C1 => Field::Cc1s,
            TimChannel::C2 => Field::Cc2s,
            TimChannel::C3 => Field::Cc3s,
            TimChannel::C4 => Field::Cc4s,
        }
    }

    pub open spec fn spec_mode_field(self) -> Field {
        match self {
            TimChannel::C1 => Field::Oc1m,
            TimChannel::C2 => Field::Oc2m,
            TimChannel::C3 => Field::Oc3m,
            TimChannel::C4 => Field::Oc4m,
        }
    }

    /// The field that holds the lowest three bits of a channel's OCxM selection.
    #[verifier::when_used_as_spec(spec_mode_field)]
    pub fn mode_field(self) -> (field: Field)
        ensures
            field == self.spec_mode_field(),
    {
        match self {
            TimChannel::C1 => Field::Oc1m,
            TimChannel::C2 => Field::Oc2m,
            TimChannel::C3 => Field::Oc3m,
            TimChannel::C4 => Field::Oc4m,
        }
    }

    pub open spec fn spec_mode_high_field(self) -> Field {
        match self {
            TimChannel::C1 => Field::Oc1mHigh,
            TimChannel::C2 => Field::Oc2mHigh,
            TimChannel::C3 => Field::Oc3mHigh,
            TimChannel::C4 => Field::Oc4mHigh,
        }
    }

    /// The field that holds the highest bit of a channel's OCxM selection.
    #[verifier::when_used_as_spec(spec_mode_high_field)]
    pub fn mode_high_field(self) -> (field: Field)
        ensures
            field == self.spec_mode_high_field(),
    {
        match self {
            TimChannel::C1 => Field::Oc1mHigh,
            TimChannel::C2 => Field::Oc2mHigh,
            TimChannel::C3 => Field::Oc3mHigh,
            TimChannel::C4 => Field::Oc4mHigh,
        }
    }

    pub open spec fn spec_preload_field(self) -> Field {
        match self {
            TimChannel::C1 => Field::Oc1pe,
            TimChannel::C2 => Field::Oc2pe,
            TimChannel::C3 => Field::Oc3pe,
            TimChannel::C4 => Field::Oc4pe,
        }
    }

    /// The OCxPE field of a channel.
    #[verifier::when_used_as_spec(spec_preload_field)]
    pub fn preload_field(self) -> (field: Field)
        ensures
            field == self.spec_preload_field(),
    {
        match self {
            TimChannel::C1 => Field::Oc1pe,
            TimChannel::C2 => Field::Oc2pe,
            TimChannel::C3 => Field::Oc3pe,
            TimChannel::C4 => Field::Oc4pe,
        }
    }

    pub open spec fn spec_compare_reg(self) -> Reg {
        match self {
            TimChannel::C1 => Reg::Ccr1,
            TimChannel::C2 => Reg::Ccr2,
            TimChannel::C3 => Reg::Ccr3,
            TimChannel::C4 => Reg::Ccr4,
        }
    }

    /// The capture/compare register of a channel.
    #[verifier::when_used_as_spec(spec_compare_reg)]
    pub fn compare_reg(self) -> (reg: Reg)
        ensures
            reg == self.spec_compare_reg(),
    {
        match self {
            TimChannel::C1 => Reg::Ccr1,
            TimChannel::C2 => Reg::Ccr2,
            TimChannel::C3 => Reg::Ccr3,
            TimChannel::C4 => Reg::Ccr4,
        }
    }
}

pub open spec fn spec_has_channel(mcu: Mcu, channels: Channels, channel: TimChannel) -> bool {
    match channel {
        TimChannel::C1 => true,
        TimChannel::C2 => channels != Channels::One,
        TimChannel::C3 => channels == Channels::Four,
        TimChannel::C4 => channels == Channels::Four && mcu.family() != Family::Wl,
    }
}

/// Whether a timer with so many channels has a given one. The WL family has no channel 4.
#[verifier::when_used_as_spec(spec_has_channel)]
pub fn has_channel(mcu: Mcu, channels: Channels, channel: TimChannel) -> (has: bool)
    ensures
        has == spec_has_channel(mcu, channels, channel),
{
    match channel {
        TimChannel::C1 => true,
        TimChannel::C2 => channels != Channels::One,
        TimChannel::C3 => channels == Channels::Four,
        TimChannel::C4 => channels == Channels::Four && mcu.family() != Family::Wl,
    }
}

pub open spec fn spec_has_complementary(mcu: Mcu, channel: TimChannel) -> bool {
    channel == TimChannel::C4 ==> mcu.family() != Family::F4 && mcu.family() != Family::L4
        && mcu.family() != Family::Wl
}

/// Whether a channel has a complementary polarity. That of channel 4 is missing on the F4, L4
/// and WL families.
#[verifier::when_used_as_spec(spec_has_complementary)]
pub fn has_complementary(mcu: Mcu, channel: TimChannel) -> (has: bool)
    ensures
        has == spec_has_complementary(mcu, channel),
{
    let family = mcu.family();
    match channel {
        TimChannel::C4 => family != Family::F4 && family != Family::L4 && family != Family::Wl,
        _ => true,
    }
}

pub open spec fn spec_has_mode_high(mcu: Mcu, channels: Channels, channel: TimChannel) -> bool {
    let family = mcu.family();
    match channels {
        Channels::Four => family != Family::F3 && family != Family::F4 && family != Family::L5
            && family != Family::Wb && (channel == TimChannel::C4 ==> family != Family::H7),
        Channels::Two => family != Family::F4 && family != Family::L5 && family != Family::Wb,
        Channels::One => family != Family::F3 && family != Family::F4 && family != Family::L4
            && family != Family::L5 && family != Family::Wb && family != Family::G0,
    }
}

/// Whether a channel has the highest bit of the OCxM selection.
#[verifier::when_used_as_spec(spec_has_mode_high)]
pub fn has_mode_high(mcu: Mcu, channels: Channels, channel: TimChannel) -> (has: bool)
    ensures
        has == spec_has_mode_high(mcu, channels, channel),
{
    let family = mcu.family();
    match channels {
        Channels::Four => match family {
            Family::F3 | Family::F4 | Family::L5 | Family::Wb => false,
            Family::H7 => channel != TimChannel::C4,
            _ => true,
        },
        Channels::Two => match family {
            Family::F4 | Family::L5 | Family::Wb => false,
            _ => true,
        },
        Channels::One => match family {
            Family::F3 | Family::F4 | Family::G0 | Family::L4 | Family::L5 | Family::Wb => false,
            _ => true,
        },
    }
}

pub open spec fn spec_mode_change(
    mcu: Mcu,
    channels: Channels,
    channel: TimChannel,
    mode: OutputCompare,
) -> Change {
    if has_mode_high(mcu, channels, channel) {
        Change::keep().with(channel.mode_high_field(), mode.code() / 8).with(
            channel.mode_field(),
            mode.code() % 8,
        )
    } else {
        Change::keep().with(channel.mode_field(), mode.code() % 8)
    }
}

/// The change to a channel's mode register that selects an output compare mode. Where the
/// channel lacks the highest bit of the selection, only the lowest three are set.
#[verifier::when_used_as_spec(spec_mode_change)]
pub fn mode_change(
    mcu: Mcu,
    channels: Channels,
    channel: TimChannel,
    mode: OutputCompare,
) -> (change: Change)
    ensures
        change == spec_mode_change(mcu, channels, channel, mode),
{
    let code: u32 = mode.code();
    let change = if has_mode_high(mcu, channels, channel) {
        Change::keep().with(channel.mode_high_field(), code / 8)
    } else {
        Change::keep()
    };
    change.with(channel.mode_field(), code % 8)
}

} // verus!
