use stm32_timer::config::{
    Alignment, CaptureCompare, CaptureCompareDma, CountDir, InputSlaveMode, InputTrigger,
    OutputCompare, Polarity, TimChannel, TimerConfig, TimerInterrupt, UpdateReqSrc, ValueError,
};
use stm32_timer::delay::millis_to_micros;
use stm32_timer::dma::{has_dma_burst, DataSize, Direction, Transfer};
use stm32_timer::frequency::{freq_vals, Rounded};
use stm32_timer::instant::Instant;
use stm32_timer::mcu::{Clocks, Mcu, TimerId};
use stm32_timer::registers::{Access, Change, Field, Reg, Registers};
use stm32_timer::timer::Timer;

const CLOCKS: Clocks = Clocks {
    apb1_timer: 36_000_000,
    apb2_timer: 72_000_000,
};

/// A timer with an empty log, and every register but those of its setup at 0.
fn timer(mcu: Mcu, id: TimerId) -> Timer {
    let mut timer = Timer::new(
        Registers::new(),
        mcu,
        id,
        Ok((9, 999)),
        TimerConfig::default(),
        &CLOCKS,
    );
    timer.regs.take_log();
    timer
}

/// Carries out accesses on plain memory.
fn replay(accesses: &[Access], reg: Reg, start: u32) -> u32 {
    let mut word = start;
    for access in accesses {
        let target = match access {
            Access::Write { reg, .. } => *reg,
            Access::Modify { reg, .. } => *reg,
        };
        if target == reg {
            word = access.outcome(word);
        }
    }
    word
}

fn write(reg: Reg, value: u32) -> Access {
    Access::Write { reg, value }
}

fn modify(reg: Reg, mask: u32, bits: u32) -> Access {
    Access::Modify {
        reg,
        change: Change { mask, bits },
    }
}

#[test]
fn default_config() {
    let cfg = TimerConfig::default();
    assert!(!cfg.one_pulse_mode);
    assert_eq!(cfg.update_request_source, UpdateReqSrc::Any);
    assert!(!cfg.auto_reload_preload);
    assert_eq!(cfg.alignment, Alignment::Edge);
    assert_eq!(cfg.capture_compare_dma, CaptureCompareDma::Ccx);
    assert_eq!(cfg.direction, CountDir::Up);
}

#[test]
fn polarity_bits() {
    assert!(!Polarity::ActiveHigh.bit());
    assert!(Polarity::ActiveLow.bit());
}

#[test]
fn initialization_in_order() {
    let cfg = TimerConfig {
        one_pulse_mode: true,
        update_request_source: UpdateReqSrc::OverUnderFlow,
        auto_reload_preload: true,
        alignment: Alignment::Center2,
        capture_compare_dma: CaptureCompareDma::Update,
        direction: CountDir::Down,
    };
    let mut timer = Timer::new(
        Registers::new(),
        Mcu::F303,
        TimerId::Tim1,
        Ok((3, 500)),
        cfg,
        &CLOCKS,
    );
    assert_eq!(
        timer.regs.take_log(),
        vec![
            modify(Reg::Cr1, 0x8c, 0x8c),
            modify(Reg::Cr2, 0x08, 0x08),
            write(Reg::Arr, 500),
            write(Reg::Psc, 3),
            modify(Reg::Cr1, 0x10, 0x10),
            modify(Reg::Cr1, 0x60, 0x40),
            write(Reg::Egr, 1),
            write(Reg::Sr, 0xffff_fffe),
        ]
    );
    assert_eq!(timer.regs.get(Reg::Cr1), 0xdc);
    assert_eq!(timer.peripheral.clock_speed, 72_000_000);
    assert_eq!(timer.cfg, cfg);
    assert_eq!(timer.monotonic.wrap_count, 0);
    assert_eq!(timer.monotonic.compare_inst, Instant { count_us: 0 });
    assert!(!timer.monotonic.compare_latched);
}

#[test]
fn initialization_of_one_channel_on_f373() {
    let cfg = TimerConfig {
        one_pulse_mode: true,
        capture_compare_dma: CaptureCompareDma::Update,
        direction: CountDir::Down,
        ..TimerConfig::default()
    };
    let mut timer = Timer::new(
        Registers::new(),
        Mcu::F373,
        TimerId::Tim12,
        Err(ValueError {}),
        cfg,
        &CLOCKS,
    );
    assert_eq!(
        timer.regs.take_log(),
        vec![
            modify(Reg::Cr1, 0x84, 0x00),
            write(Reg::Egr, 1),
            write(Reg::Sr, 0xffff_fffe),
        ]
    );
    assert_eq!(timer.peripheral.clock_speed, 36_000_000);
}

#[test]
fn log_replays_to_the_image() {
    let mut timer = timer(Mcu::H7, TimerId::Tim3);
    let ccer = timer.regs.get(Reg::Ccer);
    let ccmr1 = timer.regs.get(Reg::Ccmr1);
    timer.set_polarity(TimChannel::C2, Polarity::ActiveLow);
    timer.enable_capture_compare(TimChannel::C1);
    timer.set_output_compare(TimChannel::C1, OutputCompare::CombinedPwm1);
    timer.disable_capture_compare(TimChannel::C1);
    let log = timer.regs.take_log();
    assert_eq!(replay(&log, Reg::Ccer, ccer), timer.regs.get(Reg::Ccer));
    assert_eq!(replay(&log, Reg::Ccmr1, ccmr1), timer.regs.get(Reg::Ccmr1));
    assert_eq!(timer.regs.get(Reg::Ccer), 0x20);
    assert_eq!(timer.regs.get(Reg::Ccmr1), 0x0001_0040);
    assert!(timer.regs.take_log().is_empty());
}

#[test]
fn interrupts() {
    let mut timer = timer(Mcu::G4, TimerId::Tim2);
    timer.regs.load(Reg::Dier, 0x4000);
    timer.enable_interrupt(TimerInterrupt::Update);
    assert_eq!(timer.regs.get(Reg::Dier), 0x4001);
    timer.enable_interrupt(TimerInterrupt::UpdateDma);
    assert_eq!(timer.regs.get(Reg::Dier), 0x4101);
    timer.disable_interrupt(TimerInterrupt::Update);
    assert_eq!(timer.regs.get(Reg::Dier), 0x4100);
    timer.disable_interrupt(TimerInterrupt::UpdateDma);
    assert_eq!(timer.regs.get(Reg::Dier), 0x4000);
    timer.regs.take_log();
    timer.clear_interrupt(TimerInterrupt::Update);
    assert_eq!(timer.regs.take_log(), vec![write(Reg::Sr, 0xffff_fffe)]);
}

#[test]
fn interrupts_that_can_be_enabled() {
    let g4 = timer(Mcu::G4, TimerId::Tim2).peripheral;
    let f3 = timer(Mcu::F3, TimerId::Tim2).peripheral;
    assert!(g4.can_enable(TimerInterrupt::UpdateDma));
    assert!(!f3.can_enable(TimerInterrupt::UpdateDma));
    assert!(f3.can_enable(TimerInterrupt::Update));
    assert!(!g4.can_enable(TimerInterrupt::CaptureCompare1));
}

#[test]
fn enable_keeps_the_configuration() {
    let mut timer = timer(Mcu::L4x5, TimerId::Tim4);
    timer.regs.load(Reg::Cr1, 0xfc);
    assert!(!timer.is_enabled());
    timer.enable();
    assert!(timer.is_enabled());
    assert_eq!(timer.regs.get(Reg::Cr1), 0xfd);
    timer.regs.load(Reg::Cr1, 0xff);
    timer.disable();
    assert!(!timer.is_enabled());
    assert_eq!(timer.regs.get(Reg::Cr1), 0xfe);
}

#[test]
fn frequency_values() {
    let mut timer = timer(Mcu::L4x5, TimerId::Tim4);
    assert_eq!(timer.set_freq(Ok((7, 8))), Ok(()));
    assert_eq!(timer.regs.get(Reg::Psc), 7);
    assert_eq!(timer.regs.get(Reg::Arr), 8);
    assert_eq!(timer.regs.take_log(), vec![write(Reg::Arr, 8), write(Reg::Psc, 7)]);
    assert_eq!(timer.set_freq(Err(ValueError {})), Err(ValueError {}));
    assert!(timer.regs.take_log().is_empty());
    assert_eq!(timer.get_max_duty(), 8);
    timer.set_auto_reload(0x12345);
    timer.set_prescaler(77);
    assert_eq!(timer.get_max_duty(), 0x12345);
    assert_eq!(timer.regs.get(Reg::Psc), 77);
}

#[test]
fn frequency_values_in_range() {
    let of = |down, up| Rounded { down, up };
    assert_eq!(freq_vals(of(0, 1), of(65_534, 65_535)), Ok((0, 65_534)));
    assert_eq!(freq_vals(of(65_535, 65_535), of(1, 2)), Ok((65_535, 1)));
    assert_eq!(freq_vals(of(0, 0), of(65_535, 65_536)), Err(ValueError {}));
    assert_eq!(freq_vals(of(65_535, 65_536), of(0, 0)), Err(ValueError {}));
}

#[test]
fn frequency_factor_of_alignments() {
    assert_eq!(Alignment::Edge.freq_factor(), 1);
    assert_eq!(Alignment::Center1.freq_factor(), 2);
    assert_eq!(Alignment::Center2.freq_factor(), 2);
    assert_eq!(Alignment::Center3.freq_factor(), 2);
}

#[test]
fn counting() {
    let mut timer = timer(Mcu::L4x5, TimerId::Tim4);
    timer.regs.load(Reg::Cnt, 0xabcd_ef01);
    assert_eq!(timer.read_count(), 0xabcd_ef01);
    timer.reset_count();
    assert_eq!(timer.read_count(), 0);
    timer.regs.take_log();
    timer.reinitialize();
    assert_eq!(
        timer.regs.take_log(),
        vec![write(Reg::Egr, 1), write(Reg::Sr, 0xffff_fffe)]
    );
}

#[test]
fn duty_per_channel() {
    let mut timer = timer(Mcu::F4, TimerId::Tim5);
    timer.set_duty(TimChannel::C1, 100);
    timer.set_duty(TimChannel::C4, 0xffff_ffff);
    assert_eq!(timer.get_duty(TimChannel::C1), 100);
    assert_eq!(timer.get_duty(TimChannel::C2), 0);
    assert_eq!(timer.get_duty(TimChannel::C3), 0);
    assert_eq!(timer.get_duty(TimChannel::C4), 0xffff_ffff);
}

#[test]
fn duty_of_sixteen_bits() {
    let mut timer = timer(Mcu::F303, TimerId::Tim16);
    assert_eq!(timer.peripheral.max_value(), 0xffff);
    timer.regs.load(Reg::Ccr1, 0x5_1234);
    assert_eq!(timer.get_duty(TimChannel::C1), 0x1234);
    let g0 = self::timer(Mcu::G0, TimerId::Tim16).peripheral;
    assert!(!g0.is_readable(0x5_1234));
    assert!(g0.is_readable(0x1234));
    timer.set_duty(TimChannel::C1, 0xffff);
    assert_eq!(timer.get_duty(TimChannel::C1), 0xffff);
}

#[test]
fn duty_on_g0() {
    let mut timer = timer(Mcu::G0, TimerId::Tim3);
    timer.set_duty(TimChannel::C2, 55);
    assert_eq!(timer.get_duty(TimChannel::C2), 55);
    assert!(!self::timer(Mcu::G0, TimerId::Tim1).peripheral.can_set_duty());
    assert!(self::timer(Mcu::G4, TimerId::Tim1).peripheral.can_set_duty());
}

#[test]
fn pwm_output() {
    let mut timer = timer(Mcu::L4x6, TimerId::Tim2);
    timer.enable_pwm_output(TimChannel::C3, OutputCompare::Pwm1, 499);
    assert_eq!(
        timer.regs.take_log(),
        vec![
            modify(Reg::Ccmr2, 0x08, 0x08),
            write(Reg::Egr, 1),
            write(Reg::Sr, 0xffff_fffe),
            modify(Reg::Ccmr2, 0x0001_0070, 0x60),
            write(Reg::Ccr3, 499),
            modify(Reg::Ccer, 0x100, 0x100),
        ]
    );
    assert_eq!(timer.get_duty(TimChannel::C3), 499);
}

#[test]
fn output_compare_high_bit() {
    let mut l4 = timer(Mcu::L4x6, TimerId::Tim2);
    l4.set_output_compare(TimChannel::C2, OutputCompare::AsymmetricPwm2);
    assert_eq!(l4.regs.get(Reg::Ccmr1), 0x0100_7000);
    let mut f3 = timer(Mcu::F303, TimerId::Tim2);
    f3.set_output_compare(TimChannel::C2, OutputCompare::AsymmetricPwm2);
    assert_eq!(f3.regs.get(Reg::Ccmr1), 0x7000);
    let mut h7 = timer(Mcu::H7, TimerId::Tim2);
    h7.set_output_compare(TimChannel::C4, OutputCompare::RetriggerableOpmMode2);
    assert_eq!(h7.regs.get(Reg::Ccmr2), 0x1000);
    h7.set_output_compare(TimChannel::C3, OutputCompare::RetriggerableOpmMode2);
    assert_eq!(h7.regs.get(Reg::Ccmr2), 0x0001_1010);
    h7.set_output_compare(TimChannel::C3, OutputCompare::Frozen);
    assert_eq!(h7.regs.get(Reg::Ccmr2), 0x1000);
}

#[test]
fn input_capture() {
    let mut timer = timer(Mcu::H7, TimerId::Tim2);
    timer.set_input_capture(
        TimChannel::C3,
        CaptureCompare::InputTi1,
        InputTrigger::Internal12,
        InputSlaveMode::CombinedResetTrigger,
        Polarity::ActiveLow,
        Polarity::ActiveHigh,
    );
    assert_eq!(
        timer.regs.take_log(),
        vec![
            modify(Reg::Ccmr2, 0x03, 0x01),
            modify(Reg::Ccer, 0xa11, 0x211),
            modify(Reg::Smcr, 0x0031_0077, 0x0021_0000),
        ]
    );
}

#[test]
fn input_capture_of_channel_4() {
    let capture = |mcu| {
        let mut timer = timer(mcu, TimerId::Tim2);
        timer.set_input_capture(
            TimChannel::C4,
            CaptureCompare::InputTrc,
            InputTrigger::FilteredTimerInput1,
            InputSlaveMode::Reset,
            Polarity::ActiveHigh,
            Polarity::ActiveLow,
        );
        timer.regs.take_log()
    };
    assert_eq!(
        capture(Mcu::F303),
        vec![
            modify(Reg::Ccmr2, 0x300, 0x300),
            modify(Reg::Ccer, 0xa000, 0x8000),
            modify(Reg::Smcr, 0x0031_0077, 0x54),
        ]
    );
    assert_eq!(capture(Mcu::F4)[1], modify(Reg::Ccer, 0x2000, 0x0000));
}

#[test]
fn input_capture_of_one_channel() {
    let mut timer = timer(Mcu::F303, TimerId::Tim17);
    timer.set_input_capture_single(
        TimChannel::C1,
        CaptureCompare::InputTi2,
        Polarity::ActiveHigh,
        Polarity::ActiveLow,
    );
    assert_eq!(
        timer.regs.take_log(),
        vec![
            modify(Reg::Ccmr1, 0x03, 0x02),
            modify(Reg::Ccer, 0x0b, 0x09),
        ]
    );
}

#[test]
fn alignment_and_direction() {
    let mut timer = timer(Mcu::F303, TimerId::Tim3);
    timer.set_alignment(Alignment::Center3);
    assert_eq!(timer.cfg.alignment, Alignment::Center3);
    assert_eq!(timer.regs.get(Reg::Cr1), 0x60);
    timer.cfg.direction = CountDir::Down;
    timer.enable();
    timer.set_dir();
    assert_eq!(timer.regs.get(Reg::Cr1), 0x71);
}

#[test]
fn polarities_are_independent() {
    let mut timer = timer(Mcu::F303, TimerId::Tim3);
    timer.set_polarity(TimChannel::C4, Polarity::ActiveLow);
    timer.set_complementary_polarity(TimChannel::C4, Polarity::ActiveLow);
    timer.set_complementary_polarity(TimChannel::C2, Polarity::ActiveLow);
    assert_eq!(timer.regs.get(Reg::Ccer), 0xa080);
    timer.set_polarity(TimChannel::C4, Polarity::ActiveHigh);
    assert_eq!(timer.regs.get(Reg::Ccer), 0x8080);
}

#[test]
fn capture_compare_undone() {
    let mut timer = timer(Mcu::F303, TimerId::Tim3);
    timer.regs.load(Reg::Ccer, 0xffff_efff);
    timer.enable_capture_compare(TimChannel::C4);
    assert_eq!(timer.regs.get(Reg::Ccer), 0xffff_ffff);
    timer.disable_capture_compare(TimChannel::C4);
    assert_eq!(timer.regs.get(Reg::Ccer), 0xffff_efff);
    timer.set_capture_compare(TimChannel::C4, CaptureCompare::InputTi2);
    assert_eq!(timer.regs.field(Field::Cc4s), 2);
    timer.set_preload(TimChannel::C4, true);
    assert_eq!(timer.regs.get(Reg::Ccmr2), 0xa00);
    timer.set_preload(TimChannel::C4, false);
    assert_eq!(timer.regs.get(Reg::Ccmr2), 0x200);
}

#[test]
fn dma_bursts() {
    let mut timer = timer(Mcu::G4, TimerId::Tim3);
    let transfer = timer.write_dma_burst(0x1_0006, 13, 4, false);
    assert_eq!(
        transfer,
        Transfer {
            num_data: 6,
            direction: Direction::ReadFromMem,
            periph_size: DataSize::S16,
            mem_size: DataSize::S16,
        }
    );
    assert_eq!(
        timer.regs.take_log(),
        vec![modify(Reg::Dcr, 0x1f1f, 0x030d), modify(Reg::Cr1, 1, 1)]
    );
    let mut h7 = self::timer(Mcu::H7, TimerId::Tim3);
    let transfer = h7.read_dma_burst(0x1_0006, 45, 40, true);
    assert_eq!(
        transfer,
        Transfer {
            num_data: 0x1_0006,
            direction: Direction::ReadFromPeriph,
            periph_size: DataSize::S32,
            mem_size: DataSize::S16,
        }
    );
    assert_eq!(h7.regs.get(Reg::Dcr), 0x070d);
    assert!(has_dma_burst(Mcu::L562));
    assert!(!has_dma_burst(Mcu::L552));
    assert!(!has_dma_burst(Mcu::F303));
}

#[test]
fn delays() {
    assert_eq!(millis_to_micros(4_294_967), 4_294_967_000);
    let mut timer = timer(Mcu::F303, TimerId::Tim3);
    timer.begin_delay(Ok((1, 2)));
    assert_eq!(
        timer.regs.take_log(),
        vec![
            write(Reg::Arr, 2),
            write(Reg::Psc, 1),
            write(Reg::Cnt, 0),
            modify(Reg::Cr1, 1, 1),
        ]
    );
    timer.regs.load(Reg::Cnt, 1);
    assert!(!timer.poll_delay());
    assert!(timer.regs.take_log().is_empty());
    assert!(timer.is_enabled());
    timer.regs.load(Reg::Cnt, 0);
    assert!(timer.poll_delay());
    assert!(!timer.is_enabled());
}

#[test]
fn monotonic_state() {
    let mut timer = timer(Mcu::F303, TimerId::Tim3);
    timer.set_compare(Instant { count_us: 42 });
    assert_eq!(timer.monotonic.compare_inst, Instant { count_us: 42 });
    timer.on_interrupt();
    timer.on_interrupt();
    assert_eq!(timer.monotonic.wrap_count, 2);
    timer.monotonic.compare_latched = true;
    timer.clear_compare_flag();
    assert!(!timer.monotonic.compare_latched);
    assert_eq!(timer.monotonic.wrap_count, 2);
    assert_eq!(Timer::zero(), Instant { count_us: 0 });
    timer.enable_timer();
    assert!(timer.is_enabled());
    timer.disable_timer();
    assert!(!timer.is_enabled());
    timer.regs.load(Reg::Cnt, 9);
    timer.reset();
    assert_eq!(timer.read_count(), 0);
}
