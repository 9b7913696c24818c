//! A verified interpreter for the classic 8-bit CHIP-8 virtual machine.
//!
//! The machine model (memory, registers, call stack, timers, display and
//! input latch) lives in [`state`], the instruction set in [`operation`],
//! and the executable interpreter in [`cpu`].

use vstd::prelude::*;

pub mod cpu;
pub mod font;
pub mod laws;
pub mod nibble;
pub mod operation;
pub mod state;

verus! {

/// Width of the display, in pixels.
pub const SCREEN_WIDTH: u8 = 64;

/// Height of the display, in pixels.
pub const SCREEN_HEIGHT: u8 = 32;

} // verus!
