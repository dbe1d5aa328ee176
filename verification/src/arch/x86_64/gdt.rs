//! Global descriptor table settings shared with the interrupt setup.
use vstd::prelude::*;

verus! {

/// Slot of the interrupt stack table that holds the double-fault stack.
pub const DOUBLE_FAULT_1ST_INDEX: u16 = 0;

/// Size in bytes of the stack that double faults run on.
pub const DOUBLE_FAULT_STACK_SIZE: usize = 20480;

/// Set-up that runs after the boot-time table is loaded; there is none.
pub fn init() {
}

} // verus!
