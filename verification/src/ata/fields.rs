//! The words of the identification block, each with the decoding of its bits.

use vstd::prelude::*;
use vstd::arithmetic::power2::pow2;
use super::command::AtaCommand;
use super::command::SanitiseSubcommand;

verus! {

/// Whether every bit of `mask` is set in `word`.
pub open spec fn has_all(word: u16, mask: u16) -> bool {
    word & mask == mask
}

/// General configuration word.
#[derive(Clone, Copy, Debug, PartialEq, Eq, Structural)]
pub struct GeneralCfg(pub u16);

impl GeneralCfg {
    /// The device is an ATA device when bit 15 is clear.
    pub fn is_ata(&self) -> (r: bool)
        ensures
            r == (self.0 & 0x8000 == 0),
    {
        self.0 & 0x8000 == 0
    }

    /// The identification data is complete when bit 2 is clear.
    pub fn is_complete(&self) -> (r: bool)
        ensures
            r == (self.0 & 0x0004 == 0),
    {
        self.0 & 0x0004 == 0
    }
}

/// Whether the device needs a spin-up command, and whether the block that
/// reported it is complete.
#[derive(Clone, Copy, Debug, PartialEq, Eq, Structural)]
pub enum SpecificCfg {
    /// Device requires spin up, identification data is incomplete.
    ReqSpinUpInCom,
    /// Device requires spin up and identification data is complete.
    ReqSpinUpCom,
    /// Device does not require spin up, identification data is incomplete.
    NoSpinUpInCom,
    /// Device does not require spin up and identification data is complete.
    NoSpinUpCom,
    /// Any other value of the word.
    Reserved(u16),
}

impl SpecificCfg {
    /// The configuration that a specific-configuration word stands for.
    pub open spec fn of_word(word: u16) -> SpecificCfg {
        if word == 0x37c8 {
            SpecificCfg::ReqSpinUpInCom
        } else if word == 0x738c {
            SpecificCfg::ReqSpinUpCom
        } else if word == 0x8c73 {
            SpecificCfg::NoSpinUpInCom
        } else if word == 0xc837 {
            SpecificCfg::NoSpinUpCom
        } else {
            SpecificCfg::Reserved(word)
        }
    }

    /// Decodes a specific-configuration word.
    pub fn from_word(word: u16) -> (r: SpecificCfg)
        ensures
            r == Self::of_word(word),
    {
        if word == 0x37c8 {
            SpecificCfg::ReqSpinUpInCom
        } else if word == 0x738c {
            SpecificCfg::ReqSpinUpCom
        } else if word == 0x8c73 {
            SpecificCfg::NoSpinUpInCom
        } else if word == 0xc837 {
            SpecificCfg::NoSpinUpCom
        } else {
            SpecificCfg::Reserved(word)
        }
    }
}

/// Trusted computing feature word.
#[derive(Clone, Copy, Debug, PartialEq, Eq, Structural)]
pub struct TrustedComputing(pub u16);

impl TrustedComputing {
    /// The trusted computing feature set is supported when bit 0 is set.
    pub fn is_supported(&self) -> (r: bool)
        ensures
            r == (self.0 & 1 != 0),
    {
        self.0 & 1 != 0
    }
}

/// Properties of the interface. Nothing is decoded into it yet.
#[derive(Clone, Copy, Debug, PartialEq, Eq, Structural)]
pub struct InterfaceProperties {}

/// When clear the standby timer values are vendor specific.
pub const CAP_STANDARD_STANDBY_TIMER: u16 = 0x2000;

/// IORDY is supported.
pub const CAP_IORDY_SUPPORTED: u16 = 0x0800;

/// IORDY may be disabled.
pub const CAP_IORDY_MAYBE_DISABLED: u16 = 0x0400;

/// Logical block addressing is supported.
pub const CAP_LBA_SUPPORTED: u16 = 0x0200;

/// DMA is supported.
pub const CAP_DMA_SUPPORTED: u16 = 0x0100;

/// Capabilities word.
#[derive(Clone, Copy, Debug, PartialEq, Eq, Structural)]
pub struct Capabilities(pub u16);

impl Capabilities {
    /// The raw word.
    pub fn bits(&self) -> (r: u16)
        ensures
            r == self.0,
    {
        self.0
    }

    /// Whether every flag of `mask` is set.
    pub fn contains(&self, mask: u16) -> (r: bool)
        ensures
            r == has_all(self.0, mask),
    {
        self.0 & mask == mask
    }

    /// The long physical sector alignment error reporting field: the two
    /// lowest bits of the word.
    pub fn long_sec_err_reporting(&self) -> (r: u8)
        ensures
            r == self.0 % 4,
    {
        (self.0 % 4) as u8
    }
}

/// Sanitize feature word.
#[derive(Clone, Copy, Debug, PartialEq, Eq, Structural)]
pub struct SanitizeSubcommands(pub u16);

impl SanitizeSubcommands {
    /// Whether the word reports support for `cmd`: nothing is supported
    /// unless bit 12 is set; with it set, four subcommands have a bit of
    /// their own and the others come with the feature set.
    pub open spec fn supports(self, cmd: SanitiseSubcommand) -> bool {
        if self.0 & 0x1000 != 0 {
            match cmd {
                SanitiseSubcommand::CryptoScrambleExt => self.0 & 0x2000 != 0,
                SanitiseSubcommand::BlockEraseExt => self.0 & 0x8000 != 0,
                SanitiseSubcommand::OverwriteExt => self.0 & 0x4000 != 0,
                SanitiseSubcommand::SanitizeAntifreezeLockExt => self.0 & 0x0400 != 0,
                _ => true,
            }
        } else {
            false
        }
    }

    /// Returns whether the sanitize subcommand is supported.
    pub fn is_supported(&self, cmd: SanitiseSubcommand) -> (r: bool)
        ensures
            r == self.supports(cmd),
            self.0 & 0x1000 == 0 ==> !r,
    {
        if self.0 & 0x1000 != 0 {
            match cmd {
                SanitiseSubcommand::CryptoScrambleExt => self.0 & 0x2000 != 0,
                SanitiseSubcommand::BlockEraseExt => self.0 & 0x8000 != 0,
                SanitiseSubcommand::OverwriteExt => self.0 & 0x4000 != 0,
                SanitiseSubcommand::SanitizeAntifreezeLockExt => self.0 & 0x0400 != 0,
                _ => true,
            }
        } else {
            false
        }
    }

    /// The sanitize commands follow ACS-2 when bit 11 is clear.
    pub fn is_acs2(&self) -> (r: bool)
        ensures
            r == (self.0 & 0x0800 == 0),
    {
        self.0 & 0x0800 == 0
    }
}

/// Multiword DMA transfer modes.
#[derive(Clone, Copy, Debug, PartialEq, Eq, Structural)]
pub enum MultiwordDmaMode {
    Mode0,
    Mode1,
    Mode2,
}

/// Multiword DMA word: supported modes in the low byte, the selected mode
/// in the high byte.
#[derive(Clone, Copy, Debug, PartialEq, Eq, Structural)]
pub struct MultiwordDma(pub u16);

impl MultiwordDma {
    /// The highest mode among the three support bits, which are the three
    /// lowest bits of the word.
    pub open spec fn max_mode(self) -> Option<MultiwordDmaMode> {
        let t = self.0 % 8;
        if t == 0 {
            None
        } else if t > 4 {
            Some(MultiwordDmaMode::Mode2)
        } else if t > 2 {
            Some(MultiwordDmaMode::Mode1)
        } else {
            Some(MultiwordDmaMode::Mode0)
        }
    }

    /// The fastest supported mode, if any is supported.
    pub fn max_supported_mode(&self) -> (r: Option<MultiwordDmaMode>)
        ensures
            r == self.max_mode(),
            r.is_none() <==> self.0 % 8 == 0,
    {
        let t: u16 = self.0 % 8;
        if t == 0 {
            return None;
        }
        if t > 4 {
            Some(MultiwordDmaMode::Mode2)
        } else if t > 2 {
            Some(MultiwordDmaMode::Mode1)
        } else {
            Some(MultiwordDmaMode::Mode0)
        }
    }

    /// The bit of the high byte that marks `mode` as selected.
    pub open spec fn selected_mask(mode: MultiwordDmaMode) -> u16 {
        match mode {
            MultiwordDmaMode::Mode2 => 0x0400,
            MultiwordDmaMode::Mode1 => 0x0200,
            MultiwordDmaMode::Mode0 => 0x0100,
        }
    }

    /// Whether `mode` is the one the device currently uses.
    pub fn is_selected(&self, mode: MultiwordDmaMode) -> (r: bool)
        ensures
            r == (self.0 & Self::selected_mask(mode) != 0),
    {
        match mode {
            MultiwordDmaMode::Mode2 => self.0 & 0x0400 != 0,
            MultiwordDmaMode::Mode1 => self.0 & 0x0200 != 0,
            MultiwordDmaMode::Mode0 => self.0 & 0x0100 != 0,
        }
    }
}

/// PIO mode support word.
#[derive(Clone, Copy, Debug, PartialEq, Eq, Structural)]
pub struct PioMode(pub u16);

impl PioMode {
    /// PIO mode 4 is reported by bit 1.
    pub fn mode_4_supported(&self) -> (r: bool)
        ensures
            r == (self.0 & 0x0002 != 0),
    {
        self.0 & 0x0002 != 0
    }

    /// PIO mode 3 is read from bit 1 as well.
    pub fn mode_3_supported(&self) -> (r: bool)
        ensures
            r == (self.0 & 0x0002 != 0),
    {
        self.0 & 0x0002 != 0
    }
}

/// Trimmed blocks read back deterministically.
pub const ADDITIONAL_DETERMINISTIC_DATA_IN_TRIMM_LBA: u16 = 0x4000;

/// Long physical sector alignment errors are reported.
pub const ADDITIONAL_LONG_PHYS_ALIGN_ERR_RORTING: u16 = 0x2000;

/// The read-buffer command has a DMA form.
pub const ADDITIONAL_READ_BUFF_DMA: u16 = 0x0800;

/// The write-buffer command has a DMA form.
pub const ADDITIONAL_WRITE_BUFF_DMA: u16 = 0x0400;

/// Microcode can be downloaded by DMA.
pub const ADDITIONAL_DOWNLOAD_MICRO_DMA: u16 = 0x0100;

/// Optional 28-bit commands are not supported.
pub const ADDITIONAL_NO_OPTIONAL_28_BIT_COMMANDS: u16 = 0x0040;

/// Trimmed blocks read back as zeros.
pub const ADDITIONAL_TRIMMED_LBA_RETURNS_ZEROS: u16 = 0x0020;

/// The device encrypts all user data.
pub const ADDITIONAL_DEVICE_ENCRYPTS_ALL_DATA: u16 = 0x0010;

/// The number of sectors is reported by the extended sector count.
pub const ADDITIONAL_EXTENDED_SECTOR_ADDRESSES: u16 = 0x0008;

/// The write cache is non-volatile.
pub const ADDITIONAL_NON_VOLATILE_CACHE: u16 = 0x0004;

/// Additional supported features word.
#[derive(Clone, Copy, Debug, PartialEq, Eq, Structural)]
pub struct AdditonalSupport(pub u16);

impl AdditonalSupport {
    /// The raw word.
    pub fn bits(&self) -> (r: u16)
        ensures
            r == self.0,
    {
        self.0
    }

    /// Whether every flag of `mask` is set.
    pub fn contains(&self, mask: u16) -> (r: bool)
        ensures
            r == has_all(self.0, mask),
    {
        self.0 & mask == mask
    }
}

/// The seven words that describe PIO and DMA transfer timing.
#[derive(Clone, Copy, Debug, PartialEq, Eq, Structural)]
pub struct TransferConfig {
    pub pio_mode: PioMode,
    pub min_dma_time: u16,
    pub recommended_min_dma_time: u16,
    pub min_pio_time: u16,
    pub min_pio_time_iordy: u16,
    pub additonal_supported: AdditonalSupport,
    pub reserved: u16,
}

/// Queue depth word.
#[derive(Clone, Copy, Debug, PartialEq, Eq, Structural)]
pub struct QueueDepth(pub u16);

impl QueueDepth {
    /// The maximum number of commands that may be active at one time: one
    /// more than the five lowest bits of the word, so between 1 and 32.
    pub fn get_depth(&self) -> (r: u8)
        ensures
            r == self.0 % 32 + 1,
            1 <= r <= 32,
    {
        let t: u8 = (self.0 % 32) as u8;
        t + 1
    }
}

/// The read-log DMA command is served as the read-log command.
pub const SATA_READ_LOG_DMA_EXT_IS_READ: u16 = 0x8000;

/// The device moves from partial to slumber by itself.
pub const SATA_DEVICE_AUTO_PARTIAL_TO_SLUMBER: u16 = 0x4000;

/// The host may move the link from partial to slumber.
pub const SATA_HOST_AUTO_PARTIAL_TO_SLUMBER: u16 = 0x2000;

/// Queued commands carry a priority.
pub const SATA_SUPPORTS_NQC_PRIORIITY: u16 = 0x1000;

/// Heads can be unloaded while queued commands are outstanding.
pub const SATA_SUPPORTS_UNLOAD_WHILE_NQC: u16 = 0x0800;

/// The phy event counters log is present.
pub const SATA_PHY_EVENT_COUNTERS_LOG: u16 = 0x0400;

/// Power management requests of the host are honoured.
pub const SATA_SUPPORTS_HOST_PM_REQUESTS: u16 = 0x0200;

/// Native command queueing is supported.
pub const SATA_SUPPORTS_NQC: u16 = 0x0100;

/// Third generation signalling speed is supported.
pub const SATA_SUPPORTS_SATA_GEN3: u16 = 0x0008;

/// Second generation signalling speed is supported.
pub const SATA_SUPPORTS_SATA_GEN2: u16 = 0x0004;

/// First generation signalling speed is supported.
pub const SATA_SUPPORTS_SATA_GEN1: u16 = 0x0002;

/// Serial ATA capabilities word.
#[derive(Clone, Copy, Debug, PartialEq, Eq, Structural)]
pub struct SataCap(pub u16);

impl SataCap {
    /// Whether every flag of `mask` is set.
    pub fn contains(&self, mask: u16) -> (r: bool)
        ensures
            r == has_all(self.0, mask),
    {
        self.0 & mask == mask
    }
}

/// Power disable is always enabled.
pub const SATA2_POWER_DISABLE_ALWAYS_ENABLED: u16 = 0x0100;

/// Device sleep leads to a reduced power state.
pub const SATA2_SUPPORTS_DEVSLP_TO_REDUCED_PWR_STATE: u16 = 0x0080;

/// The queued send and receive commands are supported.
pub const SATA2_FPDMA_COMMANDS: u16 = 0x0040;

/// Queued commands without data are supported.
pub const SATA2_SUPPORTS_NCQ_NON_DATA: u16 = 0x0020;

/// Queued streaming commands are supported.
pub const SATA2_SUPPORTS_NCQ_STREAMING: u16 = 0x0010;

/// Second serial ATA capabilities word.
#[derive(Clone, Copy, Debug, PartialEq, Eq, Structural)]
pub struct SataCap2(pub u16);

impl SataCap2 {
    /// The raw word.
    pub fn bits(&self) -> (r: u16)
        ensures
            r == self.0,
    {
        self.0
    }

    /// Whether every flag of `mask` is set.
    pub fn contains(&self, mask: u16) -> (r: bool)
        ensures
            r == has_all(self.0, mask),
    {
        self.0 & mask == mask
    }

    /// Whether the three lowest bits hold a signalling generation, which
    /// is at most 3.
    pub open spec fn reports_valid_gen(self) -> bool {
        self.0 % 8 < 4
    }

    /// The signalling generation that the link currently runs at.
    pub fn get_sata_gen(&self) -> (r: u8)
        requires
            self.reports_valid_gen(),
        ensures
            r == self.0 % 8,
            r < 4,
    {
        (self.0 % 8) as u8
    }
}

/// Serial ATA features that are switched on.
#[derive(Clone, Copy, Debug, PartialEq, Eq, Structural)]
pub struct SataFeaturesEnabled(pub u16);

impl SataFeaturesEnabled {
    /// Whether every flag of `mask` is set.
    pub fn contains(&self, mask: u16) -> (r: bool)
        ensures
            r == has_all(self.0, mask),
    {
        self.0 & mask == mask
    }
}

/// The device follows ACS-4.
pub const MAJOR_ACS_4: u16 = 0x0800;

/// The device follows ACS-3.
pub const MAJOR_ACS_3: u16 = 0x0400;

/// The device follows ACS-2.
pub const MAJOR_ACS_2: u16 = 0x0200;

/// The device follows ATA8-ACS.
pub const MAJOR_ATA_8: u16 = 0x0100;

/// The device follows ATA/ATAPI-7.
pub const MAJOR_ATA_7: u16 = 0x0080;

/// The device follows ATA/ATAPI-6.
pub const MAJOR_ATA_6: u16 = 0x0040;

/// The device follows ATA/ATAPI-5.
pub const MAJOR_ATA_5: u16 = 0x0020;

/// Major version word: one bit for each standard the device follows.
#[derive(Clone, Copy, Debug, PartialEq, Eq, Structural)]
pub struct MajorVersion(pub u16);

impl MajorVersion {
    /// The raw word.
    pub fn bits(&self) -> (r: u16)
        ensures
            r == self.0,
    {
        self.0
    }

    /// Whether every flag of `mask` is set.
    pub fn contains(&self, mask: u16) -> (r: bool)
        ensures
            r == has_all(self.0, mask),
    {
        self.0 & mask == mask
    }

    /// The word reports something unless it is all zeros or all ones.
    pub fn contains_data(&self) -> (r: bool)
        ensures
            r == (self.0 != 0xffff && self.0 != 0),
    {
        !(self.0 == 0xffff || self.0 == 0)
    }
}

/// The NOP command is supported.
pub const F82_NOP: u16 = 0x4000;

/// The read-buffer command is supported.
pub const F82_READ_BUFFER: u16 = 0x2000;

/// The write-buffer command is supported.
pub const F82_WRITE_BUFFER: u16 = 0x1000;

/// The device-reset command is supported.
pub const F82_DEVICE_RESET: u16 = 0x0200;

/// Read look-ahead is supported.
pub const F82_LOOK_AHEAD: u16 = 0x0040;

/// A volatile write cache is supported.
pub const F82_VOLATILE_WRITE_CACHE: u16 = 0x0020;

/// The packet feature set is supported.
pub const F82_PACKET_FEATURES: u16 = 0x0010;

/// The power management feature set is supported.
pub const F82_POWER_MANAGEMENT_FEATURES: u16 = 0x0008;

/// The security feature set is supported.
pub const F82_SECUTITY_FEATURES: u16 = 0x0002;

/// The SMART feature set is supported.
pub const F82_SMART: u16 = 0x0001;

/// First word of supported commands and feature sets.
#[derive(Clone, Copy, Debug, PartialEq, Eq, Structural)]
pub struct Features82(pub u16);

impl Features82 {
    /// Whether every flag of `mask` is set.
    pub fn contains(&self, mask: u16) -> (r: bool)
        ensures
            r == has_all(self.0, mask),
    {
        self.0 & mask == mask
    }

    /// What this word says of `cmd`: its support bit for the four commands
    /// it covers, nothing for any other.
    pub open spec fn supports(self, cmd: AtaCommand) -> Option<bool> {
        match cmd {
            AtaCommand::Nop => Some(has_all(self.0, F82_NOP)),
            AtaCommand::ReadBuffer => Some(has_all(self.0, F82_READ_BUFFER)),
            AtaCommand::WriteBuffer => Some(has_all(self.0, F82_WRITE_BUFFER)),
            AtaCommand::Smart => Some(has_all(self.0, F82_SMART)),
            _ => None,
        }
    }

    /// Checks if the given command is supported. `None` means that this
    /// word does not cover the command.
    pub fn is_supported(&self, cmd: AtaCommand) -> (r: Option<bool>)
        ensures
            r == self.supports(cmd),
    {
        match cmd {
            AtaCommand::Nop => Some(self.contains(F82_NOP)),
            AtaCommand::ReadBuffer => Some(self.contains(F82_READ_BUFFER)),
            AtaCommand::WriteBuffer => Some(self.contains(F82_WRITE_BUFFER)),
            AtaCommand::Smart => Some(self.contains(F82_SMART)),
            _ => None,
        }
    }
}

/// The extended flush-cache command is supported.
pub const F83_FLUSH_CACHE_EXT: u16 = 0x2000;

/// The flush-cache command is supported.
pub const F83_FLUSH_CACHE: u16 = 0x1000;

/// 48-bit addressing is supported.
pub const F83_LBA_48: u16 = 0x0400;

/// A set-features command is required to spin up the disk.
pub const F83_SET_FEATURES_REQUIRED: u16 = 0x0040;

/// Power-up in standby is supported.
pub const F83_PUIS: u16 = 0x0020;

/// Advanced power management is supported.
pub const F83_APM: u16 = 0x0008;

/// The download-microcode command is supported.
pub const F83_DOWNLOAD_MICROCODE: u16 = 0x0001;

/// Second word of supported commands and feature sets.
#[derive(Clone, Copy, Debug, PartialEq, Eq, Structural)]
pub struct Features83(pub u16);

impl Features83 {
    /// Whether every flag of `mask` is set.
    pub fn contains(&self, mask: u16) -> (r: bool)
        ensures
            r == has_all(self.0, mask),
    {
        self.0 & mask == mask
    }

    /// What this word says of `cmd`: its support bit for the three commands
    /// it covers, nothing for any other.
    pub open spec fn supports(self, cmd: AtaCommand) -> Option<bool> {
        match cmd {
            AtaCommand::FlushCacheExt => Some(has_all(self.0, F83_FLUSH_CACHE_EXT)),
            AtaCommand::FlushCache => Some(has_all(self.0, F83_FLUSH_CACHE)),
            AtaCommand::DownloadMicrocode => Some(has_all(self.0, F83_DOWNLOAD_MICROCODE)),
            _ => None,
        }
    }

    /// Checks if the given command is supported. `None` means that this
    /// word does not cover the command.
    pub fn is_supported(&self, cmd: AtaCommand) -> (r: Option<bool>)
        ensures
            r == self.supports(cmd),
    {
        match cmd {
            AtaCommand::FlushCacheExt => Some(self.contains(F83_FLUSH_CACHE_EXT)),
            AtaCommand::FlushCache => Some(self.contains(F83_FLUSH_CACHE)),
            AtaCommand::DownloadMicrocode => Some(self.contains(F83_DOWNLOAD_MICROCODE)),
            _ => None,
        }
    }
}

/// Idle-immediate with unload is supported.
pub const F84_IDLE_IMMEDIATE_WITH_UNLOAD: u16 = 0x2000;

/// The world wide name is reported.
pub const F84_WORLD_WIDE_NAME: u16 = 0x0100;

/// The forced-unit-access DMA write is supported.
pub const F84_WRITE_DMA_FUA_EXT: u16 = 0x0040;

/// The general purpose logging feature set is supported.
pub const F84_GPL_FEATURES: u16 = 0x0020;

/// The streaming feature set is supported.
pub const F84_STREAMING: u16 = 0x0010;

/// SMART self-tests are supported.
pub const F84_SMART_SELF_TEST: u16 = 0x0002;

/// SMART error logging is supported.
pub const F84_SMAART_ERR_LOGGING: u16 = 0x0001;

/// Third word of supported commands and feature sets.
#[derive(Clone, Copy, Debug, PartialEq, Eq, Structural)]
pub struct Features84(pub u16);

impl Features84 {
    /// Whether every flag of `mask` is set.
    pub fn contains(&self, mask: u16) -> (r: bool)
        ensures
            r == has_all(self.0, mask),
    {
        self.0 & mask == mask
    }
}

/// Ultra DMA transfer modes.
#[derive(Clone, Copy, Debug, PartialEq, Eq, Structural)]
pub enum UltraDmaMode {
    Mode0,
    Mode1,
    Mode2,
    Mode3,
    Mode4,
    Mode5,
    Mode6,
}

impl UltraDmaMode {
    /// The bit that stands for this mode in both bytes of the word.
    pub open spec fn mask(self) -> u8 {
        match self {
            UltraDmaMode::Mode0 => 1,
            UltraDmaMode::Mode1 => 2,
            UltraDmaMode::Mode2 => 4,
            UltraDmaMode::Mode3 => 8,
            UltraDmaMode::Mode4 => 16,
            UltraDmaMode::Mode5 => 32,
            UltraDmaMode::Mode6 => 64,
        }
    }
}

/// Ultra DMA word: the selected mode in one byte, the supported modes in
/// the other.
#[derive(Clone, Copy, Debug, PartialEq, Eq, Structural)]
pub struct UltraDma {
    pub selected: u8,
    pub supported: u8,
}

impl UltraDma {
    /// The mode whose bit is the only one set in the selected byte.
    pub open spec fn current_mode(self) -> Option<UltraDmaMode> {
        if self.selected == 1 {
            Some(UltraDmaMode::Mode0)
        } else if self.selected == 2 {
            Some(UltraDmaMode::Mode1)
        } else if self.selected == 4 {
            Some(UltraDmaMode::Mode2)
        } else if self.selected == 8 {
            Some(UltraDmaMode::Mode3)
        } else if self.selected == 16 {
            Some(UltraDmaMode::Mode4)
        } else if self.selected == 32 {
            Some(UltraDmaMode::Mode5)
        } else if self.selected == 64 {
            Some(UltraDmaMode::Mode6)
        } else {
            None
        }
    }

    /// The mode in use, if exactly one mode bit is selected.
    pub fn current(&self) -> (r: Option<UltraDmaMode>)
        ensures
            r == self.current_mode(),
            r.is_some() ==> r.unwrap().mask() == self.selected,
    {
        let t: u8 = self.selected;
        if t == 0 {
            return None;
        }
        match t {
            1 => Some(UltraDmaMode::Mode0),
            2 => Some(UltraDmaMode::Mode1),
            4 => Some(UltraDmaMode::Mode2),
            8 => Some(UltraDmaMode::Mode3),
            16 => Some(UltraDmaMode::Mode4),
            32 => Some(UltraDmaMode::Mode5),
            64 => Some(UltraDmaMode::Mode6),
            _ => None,
        }
    }

    /// Whether the bit of `mode` is set in the supported byte.
    pub fn is_supported(&self, mode: UltraDmaMode) -> (r: bool)
        ensures
            r == (self.supported & mode.mask() != 0),
    {
        match mode {
            UltraDmaMode::Mode0 => self.supported & 1 != 0,
            UltraDmaMode::Mode1 => self.supported & 2 != 0,
            UltraDmaMode::Mode2 => self.supported & 4 != 0,
            UltraDmaMode::Mode3 => self.supported & 8 != 0,
            UltraDmaMode::Mode4 => self.supported & 16 != 0,
            UltraDmaMode::Mode5 => self.supported & 32 != 0,
            UltraDmaMode::Mode6 => self.supported & 64 != 0,
        }
    }
}

/// Time that a security erase takes.
#[derive(Clone, Copy, Debug, PartialEq, Eq, Structural)]
pub struct EraseTime(pub u16);

impl EraseTime {
    /// The time field: fifteen bits wide when bit 15 marks the extended
    /// format, the low byte otherwise.
    pub open spec fn time(self) -> int {
        if self.0 >= 0x8000 {
            self.0 - 0x8000
        } else {
            (self.0 % 256) as int
        }
    }

    /// The reported erase time.
    pub fn get_erase_time(&self) -> (r: u16)
        ensures
            r == self.time(),
            r < 0x8000,
    {
        if self.0 >= 0x8000 {
            self.0 - 0x8000
        } else {
            self.0 % 256
        }
    }
}

/// Advanced power management level.
#[derive(Clone, Copy, Debug, PartialEq, Eq, Structural)]
pub enum ApmLevel {
    MinimumStandby,
    IntermediateStandby(u8),
    Min,
    Intermediate(u8),
    MaxPerformance,
    Reserved(u8),
}

/// Advanced power management word: the level in its first byte.
#[derive(Clone, Copy, Debug, PartialEq, Eq, Structural)]
pub struct AdvancedPowerManagement {
    pub level: u8,
    pub reserved: u8,
}

impl AdvancedPowerManagement {
    /// The level that the level byte stands for. Both ends of the standby
    /// range, 0x01 and 0x80, read as minimum standby; 0x00 and 0xff are
    /// reserved.
    pub open spec fn mode(self) -> ApmLevel {
        let n = self.level;
        if n == 1 {
            ApmLevel::MinimumStandby
        } else if 1 < n < 0x80 {
            ApmLevel::IntermediateStandby(n)
        } else if n == 0x80 {
            ApmLevel::MinimumStandby
        } else if 0x80 < n < 0xfe {
            ApmLevel::Intermediate(n)
        } else if n == 0xfe {
            ApmLevel::MaxPerformance
        } else {
            ApmLevel::Reserved(n)
        }
    }

    /// Decodes the level byte.
    pub fn get_mode(&self) -> (r: ApmLevel)
        ensures
            r == self.mode(),
    {
        let n: u8 = self.level;
        if n == 1 {
            ApmLevel::MinimumStandby
        } else if n > 1 && n < 0x80 {
            ApmLevel::IntermediateStandby(n)
        } else if n == 0x80 {
            ApmLevel::MinimumStandby
        } else if n > 0x80 && n < 0xfe {
            ApmLevel::Intermediate(n)
        } else if n == 0xfe {
            ApmLevel::MaxPerformance
        } else {
            ApmLevel::Reserved(n)
        }
    }
}

/// A physical sector holds several logical sectors.
pub const GEOM_MULTIPLE_LOGICAL_PER_PHYS: u16 = 0x2000;

/// The flag that selects the fixed logical sector size of 512 bytes.
pub const GEOM_LOGICAL_GREATHER_512_BYTES: u16 = 0x1000;

/// Sector geometry word.
#[derive(Clone, Copy, Debug, PartialEq, Eq, Structural)]
pub struct SectorGeom(pub u16);

impl SectorGeom {
    /// The raw word.
    pub fn bits(&self) -> (r: u16)
        ensures
            r == self.0,
    {
        self.0
    }

    /// Whether every flag of `mask` is set.
    pub fn contains(&self, mask: u16) -> (r: bool)
        ensures
            r == has_all(self.0, mask),
    {
        self.0 & mask == mask
    }

    /// Two to the power of the four lowest bits of the word.
    pub fn log_sec_per_phys(&self) -> (r: u16)
        ensures
            r == pow2((self.0 % 16) as nat),
            1 <= r <= 0x8000,
    {
        let shift: u16 = self.0 % 16;
        proof {
            lemma_pow2_below_16(shift as nat);
            vstd::bits::lemma_u16_shl_is_mul(1u16, shift);
        }
        1u16 << shift
    }
}

/// The powers of two with an exponent below 16 lie between 1 and 0x8000.
pub proof fn lemma_pow2_below_16(e: nat)
    requires
        e < 16,
    ensures
        1 <= pow2(e) <= 0x8000,
{
    vstd::arithmetic::power2::lemma2_to64();
    vstd::arithmetic::power2::lemma_pow2_pos(e);
    if e < 15 {
        vstd::arithmetic::power2::lemma_pow2_strictly_increases(e, 15);
    }
}

/// The device statistics notification feature is supported.
pub const F119_DSN: u16 = 0x0200;

/// The accessible max address configuration feature set is supported.
pub const F119_MAX_ADDR_CFG: u16 = 0x0100;

/// The extended power conditions feature set is supported.
pub const F119_EPC: u16 = 0x0080;

/// Sense data reporting is supported.
pub const F119_SENSE_DATA_REPORTING: u16 = 0x0040;

/// The free-fall control feature set is supported.
pub const F119_FREE_FALL_CTL: u16 = 0x0020;

/// Download-microcode mode 3 is supported.
pub const F119_DOWNLOAD_MICRO_MODE_3: u16 = 0x0010;

/// The DMA forms of the log commands are supported.
pub const F119_LOG_DMA_EXT: u16 = 0x0008;

/// The write-uncorrectable command is supported.
pub const F119_WRITE_UNCORRECTABLE: u16 = 0x0004;

/// The write-read-verify feature set is supported.
pub const F119_READ_WRITE_VERIFY: u16 = 0x0002;

/// Fourth word of supported commands and feature sets.
#[derive(Clone, Copy, Debug, PartialEq, Eq, Structural)]
pub struct Features119(pub u16);

impl Features119 {
    /// Whether every flag of `mask` is set.
    pub fn contains(&self, mask: u16) -> (r: bool)
        ensures
            r == has_all(self.0, mask),
    {
        self.0 & mask == mask
    }

    /// What this word says of `cmd`: its support bit for the three commands
    /// it covers, nothing for any other.
    pub open spec fn supports(self, cmd: AtaCommand) -> Option<bool> {
        match cmd {
            AtaCommand::ReadLogDmaExt => Some(has_all(self.0, F119_LOG_DMA_EXT)),
            AtaCommand::WriteLogDmaExt => Some(has_all(self.0, F119_LOG_DMA_EXT)),
            AtaCommand::WriteUncorrectableExt => Some(has_all(self.0, F119_WRITE_UNCORRECTABLE)),
            _ => None,
        }
    }

    /// Checks if the given command is supported. `None` means that this
    /// word does not cover the command.
    pub fn is_supported(&self, cmd: AtaCommand) -> (r: Option<bool>)
        ensures
            r == self.supports(cmd),
    {
        match cmd {
            AtaCommand::ReadLogDmaExt => Some(self.contains(F119_LOG_DMA_EXT)),
            AtaCommand::WriteLogDmaExt => Some(self.contains(F119_LOG_DMA_EXT)),
            AtaCommand::WriteUncorrectableExt => Some(self.contains(F119_WRITE_UNCORRECTABLE)),
            _ => None,
        }
    }
}

/// Physical size of the device.
#[allow(non_camel_case_types)]
#[derive(Clone, Copy, Debug, PartialEq, Eq, Structural)]
pub enum DeviceFromFactor {
    NotReported,
    /// 5.25 inch
    Size5_25,
    /// 3.5 inch
    Size3_5,
    /// 2.5 inch
    Size2_5,
    /// 1.8 inch
    Size1_8,
    SmallerThan1_8,
    mSATA,
    M_2,
    MicroSSD,
    CFast,
}

/// Form factor word.
#[derive(Clone, Copy, Debug, PartialEq, Eq, Structural)]
pub struct FormFactor(pub u16);

impl FormFactor {
    /// The form factor that the four lowest bits stand for. The values 6
    /// and 8 both read as a micro SSD.
    pub open spec fn form_of(self) -> Option<DeviceFromFactor> {
        let t = self.0 % 16;
        if t == 0 {
            Some(DeviceFromFactor::NotReported)
        } else if t == 1 {
            Some(DeviceFromFactor::Size5_25)
        } else if t == 2 {
            Some(DeviceFromFactor::Size3_5)
        } else if t == 3 {
            Some(DeviceFromFactor::Size2_5)
        } else if t == 4 {
            Some(DeviceFromFactor::Size1_8)
        } else if t == 5 {
            Some(DeviceFromFactor::SmallerThan1_8)
        } else if t == 6 {
            Some(DeviceFromFactor::MicroSSD)
        } else if t == 7 {
            Some(DeviceFromFactor::M_2)
        } else if t == 8 {
            Some(DeviceFromFactor::MicroSSD)
        } else if t == 9 {
            Some(DeviceFromFactor::CFast)
        } else {
            None
        }
    }

    /// The reported form factor. `None` indicates a device firmware error.
    pub fn form(&self) -> (r: Option<DeviceFromFactor>)
        ensures
            r == self.form_of(),
            r.is_some() <==> self.0 % 16 <= 9,
    {
        let t: u16 = self.0 % 16;
        match t {
            0 => Some(DeviceFromFactor::NotReported),
            1 => Some(DeviceFromFactor::Size5_25),
            2 => Some(DeviceFromFactor::Size3_5),
            3 => Some(DeviceFromFactor::Size2_5),
            4 => Some(DeviceFromFactor::Size1_8),
            5 => Some(DeviceFromFactor::SmallerThan1_8),
            6 => Some(DeviceFromFactor::MicroSSD),
            7 => Some(DeviceFromFactor::M_2),
            8 => Some(DeviceFromFactor::MicroSSD),
            9 => Some(DeviceFromFactor::CFast),
            _ => None,
        }
    }
}

/// Data set management word.
#[derive(Clone, Copy, Debug, PartialEq, Eq, Structural)]
pub struct DataManagement(pub u16);

impl DataManagement {
    /// The trim bit of the data set management command is supported when
    /// bit 0 is set.
    pub fn trim_support(&self) -> (r: bool)
        ensures
            r == (self.0 & 1 != 0),
    {
        self.0 & 1 != 0
    }
}

/// Bit 7 of the command transport word.
pub const SCT_BIT_7: u16 = 0x0080;

/// The data tables command is supported.
pub const SCT_DATA_TABLES: u16 = 0x0020;

/// The feature control command is supported.
pub const SCT_FEATURE_CTL: u16 = 0x0010;

/// The error recovery control command is supported.
pub const SCT_ERR_RECOVERY: u16 = 0x0008;

/// The write-same command is supported.
pub const SCT_WRITE_SAME: u16 = 0x0004;

/// The command transport itself is supported.
pub const SCT_COMMAND_TRANSPORT: u16 = 0x0001;

/// SCT command transport word.
#[derive(Clone, Copy, Debug, PartialEq, Eq, Structural)]
pub struct SCTCommandTransport(pub u16);

impl SCTCommandTransport {
    /// The raw word.
    pub fn bits(&self) -> (r: u16)
        ensures
            r == self.0,
    {
        self.0
    }

    /// Whether every flag of `mask` is set.
    pub fn contains(&self, mask: u16) -> (r: bool)
        ensures
            r == has_all(self.0, mask),
    {
        self.0 & mask == mask
    }

    /// The vendor specific field: the four highest bits of the word.
    pub fn get_vendor(&self) -> (r: u8)
        ensures
            r == self.0 / 4096,
            r < 16,
    {
        (self.0 / 4096) as u8
    }
}

/// Alignment of logical sectors within a physical sector.
#[derive(Clone, Copy, Debug, PartialEq, Eq, Structural)]
pub struct SectorAlignment(pub u16);

impl SectorAlignment {
    /// The number of logical sectors between the beginning of physical
    /// sector 0 and LBA 0: the fourteen lowest bits of the word.
    pub fn get_alignment(&self) -> (r: u16)
        ensures
            r == self.0 % 0x4000,
    {
        self.0 % 0x4000
    }
}

/// Nominal media rotation rate.
#[derive(Clone, Copy, Debug, PartialEq, Eq, Structural)]
pub enum RotationRate {
    NotReported,
    SolidState,
    Rpm(u16),
}

/// Rotation rate word.
#[derive(Clone, Copy, Debug, PartialEq, Eq, Structural)]
pub struct RotationRateField(pub u16);

impl RotationRateField {
    /// The rate that the word stands for: a number of revolutions per
    /// minute strictly between 0x400 and 0xffff, 0 for "not reported", 1
    /// for a device without rotating media. Every other value is invalid.
    pub open spec fn rate(self) -> Option<RotationRate> {
        if 0x400 < self.0 < 0xffff {
            Some(RotationRate::Rpm(self.0))
        } else if self.0 == 0 {
            Some(RotationRate::NotReported)
        } else if self.0 == 1 {
            Some(RotationRate::SolidState)
        } else {
            None
        }
    }

    /// The reported rate, `None` for an invalid word.
    pub fn get_rate(&self) -> (r: Option<RotationRate>)
        ensures
            r == self.rate(),
            r.is_none() <==> (2 <= self.0 <= 0x400 || self.0 == 0xffff),
    {
        if self.0 > 0x400 && self.0 < 0xffff {
            Some(RotationRate::Rpm(self.0))
        } else if self.0 == 0 {
            Some(RotationRate::NotReported)
        } else if self.0 == 1 {
            Some(RotationRate::SolidState)
        } else {
            None
        }
    }
}

/// How much of what is written the device reads back to verify.
#[derive(Clone, Copy, Debug, PartialEq, Eq, Structural)]
pub enum WriteReadVerify {
    /// Always write read verify regardless of command.
    Always,
    /// Uses write read verify on the first 64K logical sectors written.
    Check64K,
    /// Vendor specific definition.
    VendorSpecific,
    /// Checks a number of logical sectors that is set at runtime.
    CheckFromCounter,
}

/// Write-read-verify mode word.
#[derive(Clone, Copy, Debug, PartialEq, Eq, Structural)]
pub struct WriteReadVerifyMode(pub u16);

impl WriteReadVerifyMode {
    /// The mode that the word stands for; only 0 to 3 are modes.
    pub open spec fn mode(self) -> Option<WriteReadVerify> {
        if self.0 == 0 {
            Some(WriteReadVerify::Always)
        } else if self.0 == 1 {
            Some(WriteReadVerify::Check64K)
        } else if self.0 == 2 {
            Some(WriteReadVerify::VendorSpecific)
        } else if self.0 == 3 {
            Some(WriteReadVerify::CheckFromCounter)
        } else {
            None
        }
    }

    /// The current mode, `None` for a word above 3.
    pub fn get_mode(&self) -> (r: Option<WriteReadVerify>)
        ensures
            r == self.mode(),
            r.is_some() <==> self.0 <= 3,
    {
        match self.0 {
            0 => Some(WriteReadVerify::Always),
            1 => Some(WriteReadVerify::Check64K),
            2 => Some(WriteReadVerify::VendorSpecific),
            3 => Some(WriteReadVerify::CheckFromCounter),
            _ => None,
        }
    }
}

/// Versions of the parallel transport.
#[derive(Clone, Copy, Debug, PartialEq, Eq, Structural)]
pub enum ParallelVersion {
    Ata7,
    Ata8,
}

impl ParallelVersion {
    /// The version that the twelve lowest bits of a transport word stand
    /// for, or those bits where they name no version.
    pub open spec fn of_word(value: u16) -> Result<ParallelVersion, u16> {
        let t = value % 4096;
        if t == 0 {
            Ok(ParallelVersion::Ata8)
        } else if t == 1 {
            Ok(ParallelVersion::Ata7)
        } else {
            Err(t)
        }
    }

    /// Decodes the version field of a transport word.
    pub fn try_from(value: u16) -> (r: Result<ParallelVersion, u16>)
        ensures
            r == Self::of_word(value),
            r.is_ok() <==> value % 4096 <= 1,
    {
        let t: u16 = value % 4096;
        match t {
            0 => Ok(ParallelVersion::Ata8),
            1 => Ok(ParallelVersion::Ata7),
            e => Err(e),
        }
    }
}

/// Versions of the serial transport.
#[allow(non_camel_case_types)]
#[derive(Clone, Copy, Debug, PartialEq, Eq, Structural)]
pub enum SerialVersion {
    Sata3_2,
    Sata3_1,
    Sata3_0,
    Sata2_6,
    Sata2_5,
    Sata2,
    Sata1,
    Ata8,
}

impl SerialVersion {
    /// The version that the twelve lowest bits of a transport word stand
    /// for, or those bits where they name no version.
    pub open spec fn of_word(value: u16) -> Result<SerialVersion, u16> {
        let t = value % 4096;
        if t == 0 {
            Ok(SerialVersion::Ata8)
        } else if t == 1 {
            Ok(SerialVersion::Sata1)
        } else if t == 2 {
            Ok(SerialVersion::Sata2)
        } else if t == 3 {
            Ok(SerialVersion::Sata2_5)
        } else if t == 4 {
            Ok(SerialVersion::Sata2_6)
        } else if t == 5 {
            Ok(SerialVersion::Sata3_0)
        } else if t == 6 {
            Ok(SerialVersion::Sata3_1)
        } else if t == 7 {
            Ok(SerialVersion::Sata3_2)
        } else {
            Err(t)
        }
    }

    /// Decodes the version field of a transport word.
    pub fn try_from(value: u16) -> (r: Result<SerialVersion, u16>)
        ensures
            r == Self::of_word(value),
            r.is_ok() <==> value % 4096 <= 7,
    {
        let t: u16 = value % 4096;
        match t {
            0 => Ok(SerialVersion::Ata8),
            1 => Ok(SerialVersion::Sata1),
            2 => Ok(SerialVersion::Sata2),
            3 => Ok(SerialVersion::Sata2_5),
            4 => Ok(SerialVersion::Sata2_6),
            5 => Ok(SerialVersion::Sata3_0),
            6 => Ok(SerialVersion::Sata3_1),
            7 => Ok(SerialVersion::Sata3_2),
            e => Err(e),
        }
    }
}

/// The transport a device is attached by, with its version.
#[derive(Clone, Copy, Debug, PartialEq, Eq, Structural)]
pub enum TransportIf {
    Parallel(ParallelVersion),
    Serial(SerialVersion),
    Pcie,
}

/// Transport major version word: the transport type in the four highest
/// bits, the version in the other twelve.
#[derive(Clone, Copy, Debug, PartialEq, Eq, Structural)]
pub struct TransportMajorVersion(pub u16);

impl TransportMajorVersion {
    /// The transport that the word stands for: type 0 is parallel, 1 is
    /// serial, 0xe is PCIe; a parallel or serial word counts only with a
    /// version that is known.
    pub open spec fn version(self) -> Option<TransportIf> {
        let t = self.0 / 4096;
        if t == 0 {
            match ParallelVersion::of_word(self.0) {
                Ok(v) => Some(TransportIf::Parallel(v)),
                Err(_) => None,
            }
        } else if t == 1 {
            match SerialVersion::of_word(self.0) {
                Ok(v) => Some(TransportIf::Serial(v)),
                Err(_) => None,
            }
        } else if t == 0xe {
            Some(TransportIf::Pcie)
        } else {
            None
        }
    }

    /// The reported transport, `None` where the type or version is unknown.
    pub fn get_version(&self) -> (r: Option<TransportIf>)
        ensures
            r == self.version(),
    {
        let t: u16 = self.0 / 4096;
        match t {
            0 => match ParallelVersion::try_from(self.0) {
                Ok(v) => Some(TransportIf::Parallel(v)),
                Err(_) => None,
            },
            1 => match SerialVersion::try_from(self.0) {
                Ok(v) => Some(TransportIf::Serial(v)),
                Err(_) => None,
            },
            0xe => Some(TransportIf::Pcie),
            _ => None,
        }
    }
}

/// Minor versions of the transport.
#[allow(non_camel_case_types)]
#[derive(Clone, Copy, Debug, PartialEq, Eq, Structural)]
pub enum TransportMinorVersion {
    NotReported,
    Ata8_AstT13ProjectD1697V0b,
    Ata_AstT13ProjectD1697V1,
}

/// Transport minor version word.
#[derive(Clone, Copy, Debug, PartialEq, Eq, Structural)]
pub struct TransportMinorVersionField(pub u16);

impl TransportMinorVersionField {
    /// The minor version that the word stands for: all zeros and all ones
    /// both mean "not reported".
    pub open spec fn version(self) -> Option<TransportMinorVersion> {
        if self.0 == 0 || self.0 == 0xffff {
            Some(TransportMinorVersion::NotReported)
        } else if self.0 == 0x21 {
            Some(TransportMinorVersion::Ata8_AstT13ProjectD1697V0b)
        } else if self.0 == 0x51 {
            Some(TransportMinorVersion::Ata_AstT13ProjectD1697V1)
        } else {
            None
        }
    }

    /// The reported minor version, `None` where the word is not recognised.
    pub fn get_version(&self) -> (r: Option<TransportMinorVersion>)
        ensures
            r == self.version(),
    {
        if self.0 == 0 || self.0 == 0xffff {
            Some(TransportMinorVersion::NotReported)
        } else if self.0 == 0x21 {
            Some(TransportMinorVersion::Ata8_AstT13ProjectD1697V0b)
        } else if self.0 == 0x51 {
            Some(TransportMinorVersion::Ata_AstT13ProjectD1697V1)
        } else {
            None
        }
    }
}

/// Extended sector count: a 64-bit number in two halves, low half first.
#[derive(Clone, Copy, Debug, PartialEq, Eq, Structural)]
pub struct SectorCountExt {
    pub low: u32,
    pub high: u32,
}

impl SectorCountExt {
    /// The number that the two halves make up.
    pub open spec fn value(self) -> int {
        self.low + self.high * 0x1_0000_0000
    }

    /// Reads the two halves as one number.
    pub fn read(&self) -> (r: u64)
        ensures
            r == self.value(),
    {
        self.low as u64 + self.high as u64 * 0x1_0000_0000
    }
}

/// Integrity word: a validity indicator and a checksum byte.
#[derive(Clone, Copy, Debug, PartialEq, Eq, Structural)]
pub struct Integrity {
    pub validity: u8,
    pub checksum: u8,
}

} // verus!
