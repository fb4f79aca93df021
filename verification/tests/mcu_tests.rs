use stm32_timer::bits::make_mask;
use stm32_timer::channel::{has_channel, has_complementary, has_mode_high};
use stm32_timer::config::{
    Alignment, CaptureCompare, InputSlaveMode, InputTrigger, MasterModeSelection, OutputCompare,
    TimChannel,
};
use stm32_timer::mcu::{
    has_basic_timers, timer_layout, Apb, Channels, Family, Mcu, Resolution, TimerId, TimerLayout,
};
use stm32_timer::registers::{Change, Field};

fn layout(apb: Apb, resolution: Resolution, channels: Channels) -> Option<TimerLayout> {
    Some(TimerLayout {
        apb,
        resolution,
        channels,
    })
}

#[test]
fn layouts_of_tim1() {
    let four = layout(Apb::Apb2, Resolution::Bits16, Channels::Four);
    let two = layout(Apb::Apb2, Resolution::Bits16, Channels::Two);
    assert_eq!(timer_layout(Mcu::F303, TimerId::Tim1), four);
    assert_eq!(timer_layout(Mcu::G070, TimerId::Tim1), two);
    assert_eq!(timer_layout(Mcu::G473, TimerId::Tim1), two);
    assert_eq!(timer_layout(Mcu::F373, TimerId::Tim1), None);
}

#[test]
fn layouts_of_general_purpose_timers() {
    let wide = layout(Apb::Apb1, Resolution::Bits32, Channels::Four);
    let one = layout(Apb::Apb2, Resolution::Bits16, Channels::One);
    assert_eq!(timer_layout(Mcu::F4, TimerId::Tim2), wide);
    assert_eq!(timer_layout(Mcu::Wb, TimerId::Tim2), wide);
    assert_eq!(timer_layout(Mcu::Wb55, TimerId::Tim2), None);
    assert_eq!(timer_layout(Mcu::L4x3, TimerId::Tim3), None);
    assert_eq!(timer_layout(Mcu::G0, TimerId::Tim4), None);
    assert_eq!(timer_layout(Mcu::F410, TimerId::Tim5), None);
    assert_eq!(timer_layout(Mcu::F411, TimerId::Tim5), wide);
    assert_eq!(timer_layout(Mcu::L562, TimerId::Tim8), one);
    assert_eq!(timer_layout(Mcu::G041, TimerId::Tim15), None);
    assert_eq!(timer_layout(Mcu::H7, TimerId::Tim15), one);
    assert_eq!(timer_layout(Mcu::F401, TimerId::Tim16), None);
    assert_eq!(timer_layout(Mcu::L412, TimerId::Tim17), None);
    assert_eq!(timer_layout(Mcu::F373, TimerId::Tim19), one);
    assert_eq!(
        timer_layout(Mcu::F373, TimerId::Tim14),
        layout(Apb::Apb1, Resolution::Bits16, Channels::One)
    );
    assert_eq!(
        timer_layout(Mcu::F303, TimerId::Tim20),
        layout(Apb::Apb2, Resolution::Bits16, Channels::Four)
    );
}

#[test]
fn basic_timers() {
    assert!(has_basic_timers(Mcu::F4));
    assert!(!has_basic_timers(Mcu::F401));
    assert!(!has_basic_timers(Mcu::Wl));
    assert!(has_basic_timers(Mcu::G0));
    assert!(!has_basic_timers(Mcu::G070));
}

#[test]
fn channels() {
    assert!(has_channel(Mcu::F3, Channels::One, TimChannel::C1));
    assert!(!has_channel(Mcu::F3, Channels::One, TimChannel::C2));
    assert!(has_channel(Mcu::F3, Channels::Two, TimChannel::C2));
    assert!(!has_channel(Mcu::F3, Channels::Two, TimChannel::C3));
    assert!(has_channel(Mcu::F3, Channels::Four, TimChannel::C4));
    assert!(!has_channel(Mcu::Wl, Channels::Four, TimChannel::C4));
    assert!(!has_complementary(Mcu::F4, TimChannel::C4));
    assert!(has_complementary(Mcu::F4, TimChannel::C3));
    assert!(has_mode_high(Mcu::L4, Channels::Four, TimChannel::C1));
    assert!(!has_mode_high(Mcu::L4, Channels::One, TimChannel::C1));
    assert_eq!(Mcu::L412.family(), Family::L4);
}

#[test]
fn fields_of_words() {
    assert_eq!(make_mask(4, 3), 0x70);
    assert_eq!(Field::Cms.read(0x5f), 2);
    assert_eq!(Field::Dbl.read(0x1200), 0x12);
    let change = Change::keep().with(Field::Oc2m, 0b1_101).with(Field::Oc1pe, 1);
    assert_eq!(
        change,
        Change {
            mask: 0x7008,
            bits: 0x5008,
        }
    );
    assert_eq!(change.outcome(0xffff_ffff), 0xffff_dfff);
    assert_eq!(Change::keep().outcome(0x1234), 0x1234);
}

#[test]
fn codes_of_settings() {
    assert_eq!(InputTrigger::ExternalTriggerInput.code(), 7);
    assert_eq!(InputTrigger::Internal13.code(), 17);
    assert_eq!(InputSlaveMode::Gated.code(), 5);
    assert_eq!(MasterModeSelection::Compare1.code(), 4);
    assert_eq!(OutputCompare::Pwm2.code(), 7);
    assert_eq!(OutputCompare::CombinedPwm1.code(), 12);
    assert_eq!(CaptureCompare::InputTrc.code(), 3);
    assert_eq!(Alignment::Center1.code(), 1);
}
