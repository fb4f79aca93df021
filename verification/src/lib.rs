//! Timers of STM32 microcontrollers: initialisation, interrupts, capture/compare and PWM.
//!
//! The library works on an image of a timer's registers and keeps a log of the register
//! accesses that a driver has to carry out on the peripheral, in order. Nothing in it
//! touches memory-mapped hardware.

pub mod basic;
pub mod bits;
pub mod channel;
pub mod config;
pub mod delay;
pub mod dma;
pub mod frequency;
pub mod instant;
pub mod laws;
pub mod mcu;
pub mod monotonic;
pub mod operation_laws;
pub mod part_laws;
pub mod registers;
pub mod timer;
pub mod word_laws;
