[package]
name = "stm32-timer"
version = "0.1.0"
edition = "2021"
publish = false

[dependencies]
cortex-m = "0.7"
embedded-hal = "0.2"
rtic-monotonic = "1"
