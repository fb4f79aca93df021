//! Microcontrollers, and which timers each of them has.

use vstd::prelude::*;

verus! {

/// A family of microcontrollers.
#[derive(Clone, Copy, Debug, PartialEq, Eq, Structural)]
pub enum Family {
    F3,
    F4,
    G0,
    G4,
    H7,
    L4,
    L5,
    Wb,
    Wl,
}

/// A microcontroller line. The variants named after a family stand for those of its lines
/// that have no variant of their own.
#[derive(Clone, Copy, Debug, PartialEq, Eq, Structural)]
pub enum Mcu {
    F301,
    F303,
    F373,
    F3x4,
    F3,
    F401,
    F410,
    F411,
    F413,
    F4,
    G030,
    G031,
    G041,
    G070,
    G0,
    G473,
    G474,
    G483,
    G484,
    G4,
    H7,
    L412,
    L4x1,
    L4x2,
    L4x3,
    L4x5,
    L4x6,
    L4,
    L552,
    L562,
    Wb55,
    Wb,
    Wl,
}

impl Mcu {
    pub open spec fn spec_family(self) -> Family {
        match self {
            Mcu::F301 | Mcu::F303 | Mcu::F373 | Mcu::F3x4 | Mcu::F3 => Family::F3,
            Mcu::F401 | Mcu::F410 | Mcu::F411 | Mcu::F413 | Mcu::F4 => Family::F4,
            Mcu::G030 | Mcu::G031 | Mcu::G041 | Mcu::G070 | Mcu::G0 => Family::G0,
            Mcu::G473 | Mcu::G474 | Mcu::G483 | Mcu::G484 | Mcu::G4 => Family::G4,
            Mcu::H7 => Family::H7,
            Mcu::L412 | Mcu::L4x1 | Mcu::L4x2 | Mcu::L4x3 | Mcu::L4x5 | Mcu::L4x6 | Mcu::L4 =>
                Family::L4,
            Mcu::L552 | Mcu::L562 => Family::L5,
            Mcu::Wb55 | Mcu::Wb => Family::Wb,
            Mcu::Wl => Family::Wl,
        }
    }

    /// The family that the microcontroller belongs to.
    #[verifier::when_used_as_spec(spec_family)]
    pub fn family(self) -> (family: Family)
        ensures
            family == self.spec_family(),
    {
        match self {
            Mcu::F301 | Mcu::F303 | Mcu::F373 | Mcu::F3x4 | Mcu::F3 => Family::F3,
            Mcu::F401 | Mcu::F410 | Mcu::F411 | Mcu::F413 | Mcu::F4 => Family::F4,
            Mcu::G030 | Mcu::G031 | Mcu::G041 | Mcu::G070 | Mcu::G0 => Family::G0,
            Mcu::G473 | Mcu::G474 | Mcu::G483 | Mcu::G484 | Mcu::G4 => Family::G4,
            Mcu::H7 => Family::H7,
            Mcu::L412 | Mcu::L4x1 | Mcu::L4x2 | Mcu::L4x3 | Mcu::L4x5 | Mcu::L4x6 | Mcu::L4 =>
                Family::L4,
            Mcu::L552 | Mcu::L562 => Family::L5,
            Mcu::Wb55 | Mcu::Wb => Family::Wb,
            Mcu::Wl => Family::Wl,
        }
    }
}

/// A general purpose or advanced control timer.
#[derive(Clone, Copy, Debug, PartialEq, Eq, Structural)]
pub enum TimerId {
    Tim1,
    Tim2,
    Tim3,
    Tim4,
    Tim5,
    Tim8,
    Tim12,
    Tim13,
    Tim14,
    Tim15,
    Tim16,
    Tim17,
    Tim19,
    Tim20,
}

/// The bus whose clock drives a timer.
#[derive(Clone, Copy, Debug, PartialEq, Eq, Structural)]
pub enum Apb {
    Apb1,
    Apb2,
}

/// The resolution of a timer's counter and duty values.
#[derive(Clone, Copy, Debug, PartialEq, Eq, Structural)]
pub enum Resolution {
    Bits16,
    Bits32,
}

impl Resolution {
    pub open spec fn spec_max(self) -> u32 {
        match self {
            Resolution::Bits16 => 0xffff,
            Resolution::Bits32 => 0xffff_ffff,
        }
    }

    /// The largest value of that resolution.
    #[verifier::when_used_as_spec(spec_max)]
    pub fn max(self) -> (max: u32)
        ensures
            max == self.spec_max(),
    {
        match self {
            Resolution::Bits16 => 0xffff,
            Resolution::Bits32 => 0xffff_ffff,
        }
    }
}

/// How many capture/compare channels a timer has.
#[derive(Clone, Copy, Debug, PartialEq, Eq, Structural)]
pub enum Channels {
    One,
    Two,
    Four,
}

/// What a timer is like.
#[derive(Clone, Copy, Debug, PartialEq, Eq, Structural)]
pub struct TimerLayout {
    pub apb: Apb,
    pub resolution: Resolution,
    pub channels: Channels,
}

/// Whether a microcontroller has a timer.
pub open spec fn timer_exists(mcu: Mcu, id: TimerId) -> bool {
    let family = mcu.family();
    match id {
        TimerId::Tim1 => mcu != Mcu::F373,
        TimerId::Tim2 => mcu != Mcu::F410 && mcu != Mcu::G070 && family != Family::L5 && mcu
            != Mcu::Wb55,
        TimerId::Tim3 => mcu != Mcu::F301 && mcu != Mcu::F410 && mcu != Mcu::L4x1 && mcu
            != Mcu::L4x3 && family != Family::L5 && family != Family::Wb && family != Family::Wl,
        TimerId::Tim4 => mcu != Mcu::F301 && mcu != Mcu::F3x4 && mcu != Mcu::F410 && mcu
            != Mcu::L4x1 && mcu != Mcu::L4x2 && mcu != Mcu::L412 && mcu != Mcu::L4x3 && family
            != Family::L5 && family != Family::G0 && family != Family::Wb && family != Family::Wl,
        TimerId::Tim5 => mcu == Mcu::F373 || mcu == Mcu::L4x5 || mcu == Mcu::L4x6 || family
            == Family::H7 || mcu == Mcu::G473 || mcu == Mcu::G474 || mcu == Mcu::G483 || mcu
            == Mcu::G484 || (family == Family::F4 && mcu != Mcu::F410),
        TimerId::Tim8 => mcu == Mcu::F303 || mcu == Mcu::L4x5 || mcu == Mcu::L4x6 || mcu
            == Mcu::L562 || family == Family::H7,
        TimerId::Tim12 | TimerId::Tim13 | TimerId::Tim14 | TimerId::Tim19 => mcu == Mcu::F373,
        TimerId::Tim15 => family != Family::L5 && family != Family::F4 && mcu != Mcu::G030 && mcu
            != Mcu::G031 && mcu != Mcu::G041 && family != Family::Wb && family != Family::Wl,
        TimerId::Tim16 => family != Family::F4,
        TimerId::Tim17 => family != Family::F4 && mcu != Mcu::L4x1 && mcu != Mcu::L4x2 && mcu
            != Mcu::L412 && mcu != Mcu::L4x3,
        TimerId::Tim20 => mcu == Mcu::F303,
    }
}

pub open spec fn spec_apb_of(id: TimerId) -> Apb {
    match id {
        TimerId::Tim2 | TimerId::Tim3 | TimerId::Tim4 | TimerId::Tim5 => Apb::Apb1,
        TimerId::Tim12 | TimerId::Tim13 | TimerId::Tim14 => Apb::Apb1,
        _ => Apb::Apb2,
    }
}

/// The bus that drives a timer.
#[verifier::when_used_as_spec(spec_apb_of)]
pub fn apb_of(id: TimerId) -> (apb: Apb)
    ensures
        apb == spec_apb_of(id),
{
    match id {
        TimerId::Tim2 | TimerId::Tim3 | TimerId::Tim4 | TimerId::Tim5 => Apb::Apb1,
        TimerId::Tim12 | TimerId::Tim13 | TimerId::Tim14 => Apb::Apb1,
        _ => Apb::Apb2,
    }
}

pub open spec fn spec_resolution_of(id: TimerId) -> Resolution {
    match id {
        TimerId::Tim2 | TimerId::Tim3 | TimerId::Tim4 | TimerId::Tim5 => Resolution::Bits32,
        _ => Resolution::Bits16,
    }
}

/// The resolution of a timer.
#[verifier::when_used_as_spec(spec_resolution_of)]
pub fn resolution_of(id: TimerId) -> (resolution: Resolution)
    ensures
        resolution == spec_resolution_of(id),
{
    match id {
        TimerId::Tim2 | TimerId::Tim3 | TimerId::Tim4 | TimerId::Tim5 => Resolution::Bits32,
        _ => Resolution::Bits16,
    }
}

pub open spec fn spec_channels_of(mcu: Mcu, id: TimerId) -> Channels {
    match id {
        TimerId::Tim1 => if mcu.family() == Family::G0 || mcu.family() == Family::G4 {
            Channels::Two
        } else {
            Channels::Four
        },
        TimerId::Tim8 => if mcu.family() == Family::L5 {
            Channels::One
        } else {
            Channels::Four
        },
        TimerId::Tim2 | TimerId::Tim3 | TimerId::Tim4 | TimerId::Tim5 | TimerId::Tim20 =>
            Channels::Four,
        _ => Channels::One,
    }
}

/// The number of channels of a timer on a microcontroller.
#[verifier::when_used_as_spec(spec_channels_of)]
pub fn channels_of(mcu: Mcu, id: TimerId) -> (channels: Channels)
    ensures
        channels == spec_channels_of(mcu, id),
{
    let family = mcu.family();
    match id {
        TimerId::Tim1 => if family == Family::G0 || family == Family::G4 {
            Channels::Two
        } else {
            Channels::Four
        },
        TimerId::Tim8 => if family == Family::L5 {
            Channels::One
        } else {
            Channels::Four
        },
        TimerId::Tim2 | TimerId::Tim3 | TimerId::Tim4 | TimerId::Tim5 | TimerId::Tim20 =>
            Channels::Four,
        _ => Channels::One,
    }
}

pub open spec fn spec_timer_layout(mcu: Mcu, id: TimerId) -> Option<TimerLayout> {
    if timer_exists(mcu, id) {
        Some(
            TimerLayout {
                apb: apb_of(id),
                resolution: resolution_of(id),
                channels: channels_of(mcu, id),
            },
        )
    } else {
        None
    }
}

fn has_timer(mcu: Mcu, id: TimerId) -> (present: bool)
    ensures
        present == timer_exists(mcu, id),
{
    let family = mcu.family();
    match id {
        TimerId::Tim1 => mcu != Mcu::F373,
        TimerId::Tim2 => match mcu {
            Mcu::F410 | Mcu::G070 | Mcu::Wb55 => false,
            _ => family != Family::L5,
        },
        TimerId::Tim3 => match mcu {
            Mcu::F301 | Mcu::F410 | Mcu::L4x1 | Mcu::L4x3 => false,
            _ => family != Family::L5 && family != Family::Wb && family != Family::Wl,
        },
        TimerId::Tim4 => match mcu {
            Mcu::F301 | Mcu::F3x4 | Mcu::F410 => false,
            Mcu::L412 | Mcu::L4x1 | Mcu::L4x2 | Mcu::L4x3 => false,
            _ => family != Family::L5 && family != Family::G0 && family != Family::Wb && family
                != Family::Wl,
        },
        TimerId::Tim5 => match mcu {
            Mcu::F373 | Mcu::L4x5 | Mcu::L4x6 | Mcu::H7 => true,
            Mcu::G473 | Mcu::G474 | Mcu::G483 | Mcu::G484 => true,
            _ => family == Family::F4 && mcu != Mcu::F410,
        },
        TimerId::Tim8 => match mcu {
            Mcu::F303 | Mcu::L4x5 | Mcu::L4x6 | Mcu::L562 | Mcu::H7 => true,
            _ => false,
        },
        TimerId::Tim12 | TimerId::Tim13 | TimerId::Tim14 | TimerId::Tim19 => mcu == Mcu::F373,
        TimerId::Tim15 => match mcu {
            Mcu::G030 | Mcu::G031 | Mcu::G041 => false,
            _ => family != Family::L5 && family != Family::F4 && family != Family::Wb && family
                != Family::Wl,
        },
        TimerId::Tim16 => family != Family::F4,
        TimerId::Tim17 => match mcu {
            Mcu::L412 | Mcu::L4x1 | Mcu::L4x2 | Mcu::L4x3 => false,
            _ => family != Family::F4,
        },
        TimerId::Tim20 => mcu == Mcu::F303,
    }
}

/// What the timer `id` is like on `mcu`, or `None` where `mcu` has no such timer.
#[verifier::when_used_as_spec(spec_timer_layout)]
pub fn timer_layout(mcu: Mcu, id: TimerId) -> (layout: Option<TimerLayout>)
    ensures
        layout == spec_timer_layout(mcu, id),
{
    if has_timer(mcu, id) {
        Some(
            TimerLayout {
                apb: apb_of(id),
                resolution: resolution_of(id),
                channels: channels_of(mcu, id),
            },
        )
    } else {
        None
    }
}

pub open spec fn spec_has_basic_timers(mcu: Mcu) -> bool {
    match mcu {
        Mcu::F401 | Mcu::F410 | Mcu::F411 | Mcu::F413 => false,
        Mcu::G030 | Mcu::G031 | Mcu::G041 | Mcu::G070 => false,
        _ => mcu.family() != Family::Wb && mcu.family() != Family::Wl,
    }
}

/// Whether a microcontroller has basic timers, such as TIM6 and TIM7.
#[verifier::when_used_as_spec(spec_has_basic_timers)]
pub fn has_basic_timers(mcu: Mcu) -> (has: bool)
    ensures
        has == spec_has_basic_timers(mcu),
{
    let family = mcu.family();
    match mcu {
        Mcu::F401 | Mcu::F410 | Mcu::F411 | Mcu::F413 => false,
        Mcu::G030 | Mcu::G031 | Mcu::G041 | Mcu::G070 => false,
        _ => family != Family::Wb && family != Family::Wl,
    }
}

/// The clock speeds of the timers on the two peripheral buses, in Hz.
#[derive(Clone, Copy, Debug, PartialEq, Eq, Structural)]
pub struct Clocks {
    pub apb1_timer: u32,
    pub apb2_timer: u32,
}

impl Clocks {
    pub open spec fn spec_timer_clock(self, apb: Apb) -> u32 {
        match apb {
            Apb::Apb1 => self.apb1_timer,
            Apb::Apb2 => self.apb2_timer,
        }
    }

    /// The clock speed of the timers on a bus.
    #[verifier::when_used_as_spec(spec_timer_clock)]
    pub fn timer_clock(self, apb: Apb) -> (hz: u32)
        ensures
            hz == self.spec_timer_clock(apb),
    {
        match apb {
            Apb::Apb1 => self.apb1_timer,
            Apb::Apb2 => self.apb2_timer,
        }
    }
}

} // verus!
