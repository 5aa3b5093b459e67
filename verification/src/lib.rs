//! Startup sequencer for a small STM32F103 board: a bit-accurate model of
//! the clock-enable, pin-remap, GPIO and countdown-timer registers that the
//! firmware programs at boot, together with the two steady-state blink
//! policies (hardware-timer polling and busy-wait counting).
//!
//! The model computes every register value and every output transition; the
//! binary around it only copies those values into the memory-mapped
//! registers of the real device.

pub mod blink;
pub mod regs;
pub mod sequencer;
