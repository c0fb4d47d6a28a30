//! Interrupt vector numbering for the two chained 8259 controllers.

use vstd::prelude::*;

verus! {

/// First vector of the primary controller.
pub const PIC_0_OFFSET: u8 = 32;

/// First vector of the secondary controller, eight lines after the primary.
pub const PIC_1_OFFSET: u8 = 40;

/// Hardware interrupts that the kernel installs handlers for.
#[derive(Clone, Copy, Debug, PartialEq, Eq, Structural)]
pub enum InterruptIndex {
    Timer,
}

impl InterruptIndex {
    /// The vector number of this interrupt.
    pub open spec fn vector(self) -> int {
        match self {
            InterruptIndex::Timer => PIC_0_OFFSET as int,
        }
    }

    /// The vector as it is handed to the interrupt controller.
    pub fn as_u8(self) -> (v: u8)
        ensures
            v == self.vector(),
            PIC_0_OFFSET <= v,
    {
        match self {
            InterruptIndex::Timer => PIC_0_OFFSET,
        }
    }

    /// The vector as an index into the descriptor table.
    pub fn as_usize(self) -> (v: usize)
        ensures
            v == self.vector(),
            v < 256,
    {
        self.as_u8() as usize
    }
}

} // verus!
