use stm32_timer::basic::BasicTimer;
use stm32_timer::config::{MasterModeSelection, ValueError};
use stm32_timer::mcu::{Clocks, Mcu};
use stm32_timer::registers::{Access, Reg, Registers};

const CLOCKS: Clocks = Clocks {
    apb1_timer: 1_000,
    apb2_timer: 2_000,
};

fn write(reg: Reg, value: u32) -> Access {
    Access::Write { reg, value }
}

#[test]
fn basic_timer_setup() {
    let mut timer = BasicTimer::new(Registers::new(), Mcu::F303, Ok((4, 5)), &CLOCKS);
    assert_eq!(timer.clock_speed, 1_000);
    assert_eq!(
        timer.regs.take_log(),
        vec![write(Reg::Arr, 5), write(Reg::Psc, 4)]
    );
    let mut unset = BasicTimer::new(Registers::new(), Mcu::F303, Err(ValueError {}), &CLOCKS);
    assert!(unset.regs.take_log().is_empty());
}

#[test]
fn basic_timer_control() {
    let mut timer = BasicTimer::new(Registers::new(), Mcu::H7, Ok((4, 5)), &CLOCKS);
    timer.regs.load(Reg::Cr1, 0x8c);
    timer.enable();
    assert_eq!(timer.regs.get(Reg::Cr1), 0x8d);
    assert!(timer.is_enabled());
    timer.disable();
    assert_eq!(timer.regs.get(Reg::Cr1), 0x8c);
    assert!(!timer.is_enabled());
}

#[test]
fn basic_timer_values() {
    let mut timer = BasicTimer::new(Registers::new(), Mcu::L552, Ok((4, 5)), &CLOCKS);
    assert_eq!(timer.get_max_duty(), 5);
    timer.set_auto_reload(0xffff);
    timer.set_prescaler(12);
    assert_eq!(timer.get_max_duty(), 0xffff);
    assert_eq!(timer.regs.get(Reg::Psc), 12);
    timer.regs.load(Reg::Cnt, 0x8000_0007);
    assert_eq!(timer.read_count(), 7);
    timer.reset_count();
    assert_eq!(timer.read_count(), 0);
    assert_eq!(timer.set_freq(Ok((1, 2))), Ok(()));
    assert_eq!(timer.set_freq(Err(ValueError {})), Err(ValueError {}));
    assert_eq!(timer.get_max_duty(), 2);
}

#[test]
fn basic_timer_master_mode() {
    let mut timer = BasicTimer::new(Registers::new(), Mcu::L562, Ok((4, 5)), &CLOCKS);
    timer.regs.load(Reg::Cr2, 0xffff_ffff);
    timer.set_mastermode(MasterModeSelection::Update);
    assert_eq!(timer.regs.get(Reg::Cr2), 0xffff_ffaf);
    timer.set_mastermode(MasterModeSelection::Compare4);
    assert_eq!(timer.regs.get(Reg::Cr2), 0xffff_ffff);
}
