//! The serial port: its line settings, the errors of its files, and the
//! dispatcher that shares one port between tasks.

use vstd::prelude::*;

pub mod dispatcher;
pub mod frame_ctl;
pub mod port;

verus! {

/// Why an operation on a file failed.
#[derive(Clone, Copy, Debug, PartialEq, Eq, Structural)]
pub enum IoError {
    /// The resource is held by someone else.
    Busy,
    /// The hardware behind the file is gone.
    MediaError,
    /// What was written is not what the file takes.
    InvalidData,
    /// The file is not in a state in which it can do this.
    NotReady,
    /// The file cannot do this at all.
    NotSupported,
    /// There is less room, or less data, than the operation needs.
    EndOfFile,
}

/// How a fifo is opened.
#[derive(Clone, Copy, Debug, PartialEq, Eq, Structural)]
pub enum OpenMode {
    /// Not open.
    Locked,
    Read,
    Write,
    ReadWrite,
}

impl Default for OpenMode {
    /// A file starts out not open.
    fn default() -> (r: Self)
        ensures
            r == OpenMode::Locked,
    {
        OpenMode::Locked
    }
}

impl OpenMode {
    /// Whether the mode allows reading.
    pub open spec fn reads(self) -> bool {
        self == OpenMode::Read || self == OpenMode::ReadWrite
    }

    /// Whether the mode allows writing.
    pub open spec fn writes(self) -> bool {
        self == OpenMode::Write || self == OpenMode::ReadWrite
    }

    /// Whether the mode allows reading.
    pub fn is_read(&self) -> (r: bool)
        ensures
            r == self.reads(),
    {
        match self {
            OpenMode::Read => true,
            OpenMode::ReadWrite => true,
            _ => false,
        }
    }

    /// Whether the mode allows writing.
    pub fn is_write(&self) -> (r: bool)
        ensures
            r == self.writes(),
    {
        match self {
            OpenMode::Write => true,
            OpenMode::ReadWrite => true,
            _ => false,
        }
    }
}

/// The kinds of file.
#[derive(Clone, Copy, Debug, PartialEq, Eq, Structural)]
pub enum FileType {
    NormalFile,
    Directory,
    CharDev,
    BlkDev,
}

/// Number of data bits in a frame.
#[derive(Clone, Copy, Debug, PartialEq, Eq, Structural)]
pub enum DataBits {
    Five,
    Six,
    Seven,
    Eight,
}

/// The parity bit of a frame.
#[derive(Clone, Copy, Debug, PartialEq, Eq, Structural)]
pub enum Parity {
    /// No parity bit.
    Off,
    Odd,
    Even,
    Mark,
    Space,
}

/// Number of stop bits of a frame.
#[derive(Clone, Copy, Debug, PartialEq, Eq, Structural)]
pub enum StopBits {
    One,
    Two,
}

} // verus!
