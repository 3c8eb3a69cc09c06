//! A CHIP-8 virtual machine: instruction decoding, the machine state and the
//! fetch-decode-execute cycle, the monochrome frame buffer, the key latch and
//! the timer clock. Every transition is specified against a mathematical model
//! of the machine and proved to follow it.

pub mod chip;
pub mod display;
pub mod error;
pub mod input;
pub mod instr;
pub mod quirks;
mod rng;
pub mod state;
pub mod timer;
