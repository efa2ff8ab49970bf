//! A CHIP-8 virtual machine core: instruction decoding, the processor state
//! and the effect of every instruction on it, each with a contract that is
//! proved against a mathematical model of the machine.

pub mod cart;
pub mod cpu;
pub mod fault;
pub mod keypad;
pub mod text;

use vstd::prelude::*;

verus! {

/// Number of pixel columns of the display.
pub const SCREEN_WIDTH: usize = 64;

/// Number of pixel rows of the display.
pub const SCREEN_HEIGHT: usize = 32;

} // verus!
