//! Core of a cycle-driven emulator for an 8-bit handheld console: an LR35902
//! interpreter, its memory bus, the pixel unit, the divider and timer, and the
//! cartridge bank controllers. Every operation carries a contract over a
//! mathematical model of the machine state.
use vstd::prelude::*;

pub mod error;
pub mod utils;
pub mod mbc;
pub mod ppu;
pub mod cpu;
pub mod mmu;

verus! {

/// Machine cycles per second of the simulated hardware.
pub const CLOCK_SPEED: u32 = 1048576;

/// Width of the display in pixels.
pub const SCREEN_WIDTH: usize = 160;

/// Height of the display in pixels.
pub const SCREEN_HEIGHT: usize = 144;

/// A control message from the host to the core.
pub struct GbInput {}

/// One completed frame: 160 x 144 shade indices, row by row.
pub struct GbOutput {
    pub frame: Vec<u8>,
}

} // verus!
