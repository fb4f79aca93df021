# stm32-timer

A verified library for the timers of STM32 microcontrollers: initialisation, interrupts,
capture/compare, PWM, DMA bursts, delays, and instants for a task scheduler.

The library works on an image of a timer's registers (`registers::Registers`). Each operation
of `timer::Timer` and `basic::BasicTimer` changes the image and logs the register accesses that
it consists of. A driver repeats the logged accesses on the peripheral, in order, and loads the
registers that it wants to read.

- `src/bits.rs`, `src/registers.rs`: bit fields, registers, the image and its log.
- `src/mcu.rs`, `src/channel.rs`: which timers a microcontroller has, and where the settings of
  a channel stand.
- `src/config.rs`, `src/frequency.rs`, `src/instant.rs`: settings, frequencies, instants.
- `src/timer.rs`, `src/basic.rs`: the timers; `src/delay.rs`, `src/dma.rs` and
  `src/monotonic.rs` hold further operations.
- `src/laws.rs`: what holds of the operations together.
- `app/`: the driver on memory-mapped registers, and what computes with floating-point numbers.
