//! The two serial ports the kernel writes to.
use vstd::prelude::*;

verus! {

/// I/O port base of the first serial port (COM1).
pub const SERIAL1_COM: u16 = 0x3f8;

/// I/O port base of the second serial port (COM2).
pub const SERIAL2_COM: u16 = 0x2f8;

} // verus!
