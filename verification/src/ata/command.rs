//! The commands whose support a device reports in its identification block.

use vstd::prelude::*;

verus! {

/// ATA commands that the feature words of the identification block speak of.
#[derive(Clone, Copy, Debug, PartialEq, Eq, Structural)]
pub enum AtaCommand {
    Nop,
    ReadBuffer,
    WriteBuffer,
    Smart,
    FlushCache,
    FlushCacheExt,
    DownloadMicrocode,
    ReadLogDmaExt,
    WriteLogDmaExt,
    WriteUncorrectableExt,
    SanitizeDevice,
    IdentifyDevice,
    ReadDmaExt,
    WriteDmaExt,
}

/// Subcommands of the sanitize command set.
#[derive(Clone, Copy, Debug, PartialEq, Eq, Structural)]
pub enum SanitiseSubcommand {
    SanitizeStatusExt,
    CryptoScrambleExt,
    BlockEraseExt,
    OverwriteExt,
    SanitizeFreezeLockExt,
    SanitizeAntifreezeLockExt,
}

/// A command of either set, as handed to a support query.
#[derive(Clone, Copy, Debug, PartialEq, Eq, Structural)]
pub enum Checkable {
    Ata(AtaCommand),
    Sanitise(SanitiseSubcommand),
}

/// Commands whose support can be looked up in an identification block.
pub trait CheckableCommand: Sized {
    /// The command set and command that `self` stands for.
    spec fn checkable(&self) -> Checkable;

    /// Executable form of [`CheckableCommand::checkable`].
    fn to_checkable(&self) -> (c: Checkable)
        ensures
            c == self.checkable(),
    ;
}

impl CheckableCommand for AtaCommand {
    open spec fn checkable(&self) -> Checkable {
        Checkable::Ata(*self)
    }

    fn to_checkable(&self) -> (c: Checkable) {
        Checkable::Ata(*self)
    }
}

impl CheckableCommand for SanitiseSubcommand {
    open spec fn checkable(&self) -> Checkable {
        Checkable::Sanitise(*self)
    }

    fn to_checkable(&self) -> (c: Checkable) {
        Checkable::Sanitise(*self)
    }
}

impl CheckableCommand for Checkable {
    open spec fn checkable(&self) -> Checkable {
        *self
    }

    fn to_checkable(&self) -> (c: Checkable) {
        *self
    }
}

} // verus!
