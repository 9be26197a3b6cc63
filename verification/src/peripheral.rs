//! The USB full-speed peripheral as this board wires it up: fixed
//! hardware parameters queried by the bus driver.

use vstd::prelude::*;

verus! {

/// The core is a full-speed peripheral.
pub const HIGH_SPEED: bool = false;

/// Depth of the shared packet FIFO, in 32-bit words.
pub const FIFO_DEPTH_WORDS: usize = 320;

/// Number of endpoints the core implements.
pub const ENDPOINT_COUNT: usize = 4;

/// The USB peripheral of the board.
pub struct Usb {}

impl Usb {
    /// The peripheral needs no bring-up of its own beyond the clock
    /// configuration the board boot path already performed.
    pub fn enable() {
    }

    /// AHB bus frequency the USB core runs at.
    pub fn ahb_frequency_hz(&self) -> (r: u32)
        ensures
            r == 120_000_000u32,
    {
        120_000_000
    }
}

} // verus!
