//! Leaving the emulator with a result.

use vstd::prelude::*;

verus! {

/// The port that the emulator's exit device listens on.
pub const EXIT_PORT: u16 = 0xf4;

/// What a test run tells the emulator when it is over.
#[derive(Clone, Copy, Debug, PartialEq, Eq, Structural)]
pub enum QemuExitCode {
    Success,
    Failed,
}

impl QemuExitCode {
    /// The number that stands for the code.
    pub open spec fn value(self) -> u32 {
        match self {
            QemuExitCode::Success => 0x10,
            QemuExitCode::Failed => 0x11,
        }
    }

    /// The number to write to the exit port.
    pub fn code(self) -> (r: u32)
        ensures
            r == self.value(),
    {
        match self {
            QemuExitCode::Success => 0x10,
            QemuExitCode::Failed => 0x11,
        }
    }
}

} // verus!
