//! Vector numbers of the interrupts that the two chained PICs raise.
use vstd::prelude::*;

verus! {

/// First vector used by the primary PIC.
pub const PIC_1_OFFSET: u8 = 32;

/// First vector used by the secondary PIC.
pub const PIC_2_OFFSET: u8 = 40;

/// Hardware interrupts the kernel handles, numbered from `PIC_1_OFFSET`.
#[derive(Debug, Clone, Copy, PartialEq, Eq, Structural)]
pub enum InterruptIndex {
    Timer,
    Keyboard,
}

impl InterruptIndex {
    /// The vector number of this interrupt.
    pub open spec fn vector(self) -> int {
        match self {
            InterruptIndex::Timer => PIC_1_OFFSET as int,
            InterruptIndex::Keyboard => PIC_1_OFFSET + 1,
        }
    }

    pub fn as_u8(self) -> (r: u8)
        ensures
            r == self.vector(),
    {
        match self {
            InterruptIndex::Timer => PIC_1_OFFSET,
            InterruptIndex::Keyboard => PIC_1_OFFSET + 1,
        }
    }

    pub fn as_usize(self) -> (r: usize)
        ensures
            r == self.vector(),
    {
        usize::from(self.as_u8())
    }
}

/// The timer raises vector 32, the first of the primary PIC, and the
/// keyboard vector 33, the next one.
pub proof fn lemma_vectors()
    ensures
        InterruptIndex::Timer.vector() == 32,
        InterruptIndex::Keyboard.vector() == 33,
{
}

} // verus!
