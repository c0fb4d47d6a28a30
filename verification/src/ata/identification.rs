//! The identification block that a device returns for an identify command,
//! and what can be read out of it.
//!
//! The block is 512 bytes long. Multi-byte fields are little endian. Every
//! field is named here by the offset of its first byte.

use vstd::prelude::*;
use vstd::arithmetic::power2::pow2;
use vstd::slice::slice_subrange;
use vstd::utf8::decode_utf8;
use vstd::utf8::valid_utf8;
use super::command::AtaCommand;
use super::command::Checkable;
use super::command::CheckableCommand;
use super::command::SanitiseSubcommand;
use super::fields::has_all;
use super::fields::AdditonalSupport;
use super::fields::AdvancedPowerManagement;
use super::fields::ApmLevel;
use super::fields::Features119;
use super::fields::Features82;
use super::fields::Features83;
use super::fields::Features84;
use super::fields::GeneralCfg;
use super::fields::MajorVersion;
use super::fields::PioMode;
use super::fields::QueueDepth;
use super::fields::RotationRate;
use super::fields::RotationRateField;
use super::fields::SanitizeSubcommands;
use super::fields::SectorAlignment;
use super::fields::SectorCountExt;
use super::fields::SectorGeom;
use super::fields::SpecificCfg;
use super::fields::TransferConfig;
use super::fields::TransportIf;
use super::fields::TransportMajorVersion;
use super::fields::TransportMinorVersion;
use super::fields::TransportMinorVersionField;
use super::fields::ADDITIONAL_EXTENDED_SECTOR_ADDRESSES;
use super::fields::F84_WORLD_WIDE_NAME;
use super::fields::GEOM_LOGICAL_GREATHER_512_BYTES;
use super::fields::GEOM_MULTIPLE_LOGICAL_PER_PHYS;

verus! {

/// What the string getters return for a field that is not valid UTF-8.
pub const DECODE_FAILED: &'static str = "Failed to decode ata string";

/// General configuration word.
pub const OFF_GENERAL_CFG: usize = 0;

/// Specific configuration word.
pub const OFF_SPECIFIC_CFG: usize = 4;

/// Serial number, a string.
pub const OFF_SERIAL: usize = 18;

/// Length of the serial number.
pub const LEN_SERIAL: usize = 20;

/// Firmware revision, a string.
pub const OFF_FIRMWARE: usize = 44;

/// Length of the firmware revision.
pub const LEN_FIRMWARE: usize = 8;

/// Model number, a string.
pub const OFF_MODEL: usize = 52;

/// Length of the model number.
pub const LEN_MODEL: usize = 40;

/// Word that says which other fields are valid; its high byte is the
/// free-fall sensitivity.
pub const OFF_VALIDITY: usize = 102;

/// Sanitize feature word.
pub const OFF_SANITIZE: usize = 114;

/// Number of sectors that 28-bit commands can address, 32 bits.
pub const OFF_LBA_28: usize = 116;

/// Transfer configuration, seven words.
pub const OFF_TRANSFER_CFG: usize = 124;

/// Queue depth word.
pub const OFF_QUEUE_DEPTH: usize = 146;

/// Major version word.
pub const OFF_MAJOR_VERSION: usize = 154;

/// Minor version word.
pub const OFF_MINOR_VERSION: usize = 156;

/// First word of supported commands and feature sets.
pub const OFF_FEATURES_82: usize = 158;

/// Second word of supported commands and feature sets.
pub const OFF_FEATURES_83: usize = 160;

/// Third word of supported commands and feature sets.
pub const OFF_FEATURES_84: usize = 162;

/// Advanced power management level, a byte.
pub const OFF_APM_LEVEL: usize = 176;

/// Number of sectors that 48-bit commands can address, 64 bits.
pub const OFF_LOGICAL_SECTORS: usize = 200;

/// Sector geometry word.
pub const OFF_SECTOR_GEOM: usize = 212;

/// World wide name, 64 bits.
pub const OFF_WORLD_WIDE_NAME: usize = 216;

/// Size of a logical sector in 16-bit words, 32 bits.
pub const OFF_LOGICAL_SECTOR_SIZE: usize = 236;

/// Fourth word of supported commands and feature sets.
pub const OFF_FEATURES_119: usize = 240;

/// Sector alignment word.
pub const OFF_SECTOR_ALIGNMENT: usize = 420;

/// Rotation rate word.
pub const OFF_ROTATION_RATE: usize = 438;

/// Transport major version word.
pub const OFF_TRANSPORT_MAJOR: usize = 444;

/// Transport minor version word.
pub const OFF_TRANSPORT_MINOR: usize = 446;

/// Extended sector count, two halves of 32 bits.
pub const OFF_SECTOR_COUNT_EXT: usize = 460;

/// Integrity word: the validity byte, then the checksum byte.
pub const OFF_INTEGRITY: usize = 510;

/// The 16-bit little-endian number at `off`.
pub open spec fn word_at(b: Seq<u8>, off: int) -> u16 {
    (b[off] + 256 * b[off + 1]) as u16
}

/// The 32-bit little-endian number at `off`.
pub open spec fn dword_at(b: Seq<u8>, off: int) -> u32 {
    (word_at(b, off) + 0x1_0000 * word_at(b, off + 2)) as u32
}

/// The 64-bit little-endian number at `off`.
pub open spec fn qword_at(b: Seq<u8>, off: int) -> u64 {
    (dword_at(b, off) + 0x1_0000_0000 * dword_at(b, off + 4)) as u64
}

/// The sum of the first `n` bytes of `b`.
pub open spec fn byte_sum(b: Seq<u8>, n: nat) -> int
    decreases n,
{
    if n == 0 {
        0
    } else {
        byte_sum(b, (n - 1) as nat) + b[n - 1]
    }
}

/// The transfer configuration that starts at `off`.
pub open spec fn transfer_cfg_at(b: Seq<u8>, off: int) -> TransferConfig {
    TransferConfig {
        pio_mode: PioMode(word_at(b, off)),
        min_dma_time: word_at(b, off + 2),
        recommended_min_dma_time: word_at(b, off + 4),
        min_pio_time: word_at(b, off + 6),
        min_pio_time_iordy: word_at(b, off + 8),
        additonal_supported: AdditonalSupport(word_at(b, off + 10)),
        reserved: word_at(b, off + 12),
    }
}

/// The text of a string field: its characters where the bytes are valid
/// UTF-8, a fixed message where they are not.
pub open spec fn text_of(bytes: Seq<u8>) -> Seq<char> {
    if valid_utf8(bytes) {
        decode_utf8(bytes)
    } else {
        DECODE_FAILED@
    }
}

/// Version and interface information of a device. The optional parts are
/// `None` where the device does not report them or reports what is not
/// recognised.
#[derive(Clone, Copy, Debug, PartialEq, Eq, Structural)]
pub struct VersionInfo {
    pub major_vers: Option<MajorVersion>,
    pub minor_vers: u16,
    pub transport_major: Option<TransportIf>,
    pub transport_minor: Option<TransportMinorVersion>,
}

/// The geometry of a device.
///
/// Logical sectors are the blocks that software addresses, physical sectors
/// those that the hardware accesses.
#[derive(Clone, Copy, Debug, PartialEq, Eq, Structural)]
pub struct DeviceGeometry {
    /// Number of logical sectors addressable on the device.
    pub sector_count: u64,
    /// Size of a logical sector in bytes.
    pub logical_sec_size: u32,
    /// Size of a physical sector in bytes.
    pub phys_sec_size: u64,
    /// Number of logical sectors by which LBA 0 is offset into the first
    /// physical sector.
    pub alignment: u16,
}

impl DeviceGeometry {
    /// Whether a physical sector differs in size from a logical one.
    pub fn multiple_lbas_per_sector(&self) -> (r: bool)
        ensures
            r == (self.logical_sec_size != self.phys_sec_size),
    {
        self.logical_sec_size as u64 != self.phys_sec_size
    }
}

/// Reads a byte slice as a string.
///
/// Trusted: `core::str::from_utf8` succeeds exactly on valid UTF-8, and the
/// string it returns holds the characters that the bytes encode.
#[verifier::external_body]
fn utf8_str(bytes: &[u8]) -> (r: Option<&str>)
    ensures
        r.is_some() == valid_utf8(bytes@),
        r.is_some() ==> r.unwrap()@ == decode_utf8(bytes@),
{
    match core::str::from_utf8(bytes) {
        Ok(s) => Some(s),
        Err(_) => None,
    }
}

/// The identification block of a device.
pub struct DeviceIdentity {
    raw: [u8; 512],
}

impl View for DeviceIdentity {
    type V = Seq<u8>;

    closed spec fn view(&self) -> Seq<u8> {
        self.raw@
    }
}

impl DeviceIdentity {
    /// Takes the block as the device returned it.
    pub fn from_bytes(raw: [u8; 512]) -> (r: Self)
        ensures
            r@ == raw@,
    {
        DeviceIdentity { raw }
    }

    /// The block as the device returned it.
    pub fn as_bytes(&self) -> (r: &[u8; 512])
        ensures
            r@ == self@,
    {
        &self.raw
    }

    fn byte(&self, off: usize) -> (r: u8)
        requires
            off < 512,
        ensures
            r == self@[off as int],
    {
        self.raw[off]
    }

    fn word(&self, off: usize) -> (r: u16)
        requires
            off + 1 < 512,
        ensures
            r == word_at(self@, off as int),
    {
        self.raw[off] as u16 + 256 * (self.raw[off + 1] as u16)
    }

    fn dword(&self, off: usize) -> (r: u32)
        requires
            off + 3 < 512,
        ensures
            r == dword_at(self@, off as int),
    {
        self.word(off) as u32 + 0x1_0000 * (self.word(off + 2) as u32)
    }

    fn qword(&self, off: usize) -> (r: u64)
        requires
            off + 7 < 512,
        ensures
            r == qword_at(self@, off as int),
    {
        self.dword(off) as u64 + 0x1_0000_0000 * (self.dword(off + 4) as u64)
    }

    fn text(&self, off: usize, len: usize) -> (r: &str)
        requires
            off + len <= 512,
        ensures
            r@ == text_of(self@.subrange(off as int, off + len)),
    {
        let field = slice_subrange(self.raw.as_slice(), off, off + len);
        match utf8_str(field) {
            Some(s) => s,
            None => DECODE_FAILED,
        }
    }

    /// What [`DeviceIdentity::checksum`] accepts: the validity byte is not
    /// 0x5a, and the bytes before the checksum byte add up to a multiple
    /// of 256.
    pub open spec fn checksum_ok(&self) -> bool {
        self@[OFF_INTEGRITY as int] != 0x5a && byte_sum(self@, 511) % 256 == 0
    }

    /// Returns true on a good checksum, otherwise returns false.
    ///
    /// This should be called before any other data is read from the block.
    /// A bad checksum may indicate a hardware failure on the cable or the
    /// device.
    pub fn checksum(&self) -> (r: bool)
        ensures
            r == self.checksum_ok(),
    {
        if self.raw[OFF_INTEGRITY] == 0x5a {
            return false;
        }
        let mut sum: u8 = 0;
        let mut i: usize = 0;
        while i < 511
            invariant
                i <= 511,
                sum == byte_sum(self@, i as nat) % 256,
            decreases 511 - i,
        {
            let b: u8 = self.raw[i];
            let wide: u16 = sum as u16 + b as u16;
            sum = (wide % 256) as u8;
            i += 1;
        }
        sum == 0
    }

    /// Returns the general config of the device.
    pub fn get_general_config(&self) -> (r: GeneralCfg)
        ensures
            r == GeneralCfg(word_at(self@, OFF_GENERAL_CFG as int)),
    {
        GeneralCfg(self.word(OFF_GENERAL_CFG))
    }

    /// Returns the specific config of the device, which says whether the
    /// device requires powering up.
    pub fn get_specific_cfg(&self) -> (r: SpecificCfg)
        ensures
            r == SpecificCfg::of_word(word_at(self@, OFF_SPECIFIC_CFG as int)),
    {
        SpecificCfg::from_word(self.word(OFF_SPECIFIC_CFG))
    }

    /// The serial number field as text.
    pub fn get_serial(&self) -> (r: &str)
        ensures
            r@ == text_of(self@.subrange(OFF_SERIAL as int, OFF_SERIAL + LEN_SERIAL)),
    {
        self.text(OFF_SERIAL, LEN_SERIAL)
    }

    /// The firmware revision field as text.
    pub fn firmware_revision(&self) -> (r: &str)
        ensures
            r@ == text_of(self@.subrange(OFF_FIRMWARE as int, OFF_FIRMWARE + LEN_FIRMWARE)),
    {
        self.text(OFF_FIRMWARE, LEN_FIRMWARE)
    }

    /// The model number field as text.
    pub fn model_num(&self) -> (r: &str)
        ensures
            r@ == text_of(self@.subrange(OFF_MODEL as int, OFF_MODEL + LEN_MODEL)),
    {
        self.text(OFF_MODEL, LEN_MODEL)
    }

    /// The free-fall sensitivity: the high byte of the validity word.
    pub fn free_fall_sensitivity(&self) -> (r: u8)
        ensures
            r == word_at(self@, OFF_VALIDITY as int) / 256,
            r == self@[OFF_VALIDITY + 1],
    {
        (self.word(OFF_VALIDITY) / 256) as u8
    }

    /// Bit 2 of the validity word marks the major version word as valid.
    pub fn word_88_valid(&self) -> (r: bool)
        ensures
            r == (word_at(self@, OFF_VALIDITY as int) & 0x0004 != 0),
    {
        self.word(OFF_VALIDITY) & 0x0004 != 0
    }

    /// Bit 1 of the validity word marks the transfer configuration as valid.
    pub fn word_64_70_valid(&self) -> (r: bool)
        ensures
            r == (word_at(self@, OFF_VALIDITY as int) & 0x0002 != 0),
    {
        self.word(OFF_VALIDITY) & 0x0002 != 0
    }

    /// Checks if the transfer config is valid and returns it if it is.
    pub fn get_transfer_cfg(&self) -> (r: Option<TransferConfig>)
        ensures
            r.is_some() == (word_at(self@, OFF_VALIDITY as int) & 0x0002 != 0),
            r.is_some() ==> r.unwrap() == transfer_cfg_at(self@, OFF_TRANSFER_CFG as int),
    {
        if self.word_64_70_valid() {
            Some(
                TransferConfig {
                    pio_mode: PioMode(self.word(OFF_TRANSFER_CFG)),
                    min_dma_time: self.word(OFF_TRANSFER_CFG + 2),
                    recommended_min_dma_time: self.word(OFF_TRANSFER_CFG + 4),
                    min_pio_time: self.word(OFF_TRANSFER_CFG + 6),
                    min_pio_time_iordy: self.word(OFF_TRANSFER_CFG + 8),
                    additonal_supported: AdditonalSupport(self.word(OFF_TRANSFER_CFG + 10)),
                    reserved: self.word(OFF_TRANSFER_CFG + 12),
                },
            )
        } else {
            None
        }
    }

    /// The major version word where it is marked valid and holds data.
    pub open spec fn major_version(&self) -> Option<MajorVersion> {
        let w = word_at(self@, OFF_MAJOR_VERSION as int);
        if word_at(self@, OFF_VALIDITY as int) & 0x0004 != 0 && w != 0xffff && w != 0 {
            Some(MajorVersion(w))
        } else {
            None
        }
    }

    /// Version and interface information.
    pub fn version_info(&self) -> (r: VersionInfo)
        ensures
            r.major_vers == self.major_version(),
            r.minor_vers == word_at(self@, OFF_MINOR_VERSION as int),
            r.transport_major == TransportMajorVersion(
                word_at(self@, OFF_TRANSPORT_MAJOR as int),
            ).version(),
            r.transport_minor == TransportMinorVersionField(
                word_at(self@, OFF_TRANSPORT_MINOR as int),
            ).version(),
    {
        let major = MajorVersion(self.word(OFF_MAJOR_VERSION));
        let maj = if self.word_88_valid() && major.contains_data() {
            Some(major)
        } else {
            None
        };
        VersionInfo {
            major_vers: maj,
            minor_vers: self.word(OFF_MINOR_VERSION),
            transport_major: TransportMajorVersion(self.word(OFF_TRANSPORT_MAJOR)).get_version(),
            transport_minor: TransportMinorVersionField(
                self.word(OFF_TRANSPORT_MINOR),
            ).get_version(),
        }
    }

    /// What the block says of an ATA command: the answer of the first of
    /// the three feature words that covers it; for the sanitize command,
    /// whether the sanitize feature set is there; nothing for the rest.
    pub open spec fn ata_support(&self, cmd: AtaCommand) -> Option<bool> {
        let f82 = Features82(word_at(self@, OFF_FEATURES_82 as int));
        let f83 = Features83(word_at(self@, OFF_FEATURES_83 as int));
        let f119 = Features119(word_at(self@, OFF_FEATURES_119 as int));
        let san = SanitizeSubcommands(word_at(self@, OFF_SANITIZE as int));
        if f82.supports(cmd).is_some() {
            f82.supports(cmd)
        } else if f83.supports(cmd).is_some() {
            f83.supports(cmd)
        } else if f119.supports(cmd).is_some() {
            f119.supports(cmd)
        } else if cmd == AtaCommand::SanitizeDevice {
            Some(san.supports(SanitiseSubcommand::SanitizeStatusExt))
        } else {
            None
        }
    }

    /// What the block says of a command of either set.
    pub open spec fn support(&self, cmd: Checkable) -> Option<bool> {
        match cmd {
            Checkable::Ata(c) => self.ata_support(c),
            Checkable::Sanitise(c) => Some(
                SanitizeSubcommands(word_at(self@, OFF_SANITIZE as int)).supports(c),
            ),
        }
    }

    /// Checks if a command is supported. With `Some(b)` the support of the
    /// command is `b`; `None` means that the block holds nothing by which
    /// the command could be checked.
    pub fn is_supported<C: CheckableCommand>(&self, cmd: C) -> (r: Option<bool>)
        ensures
            r == self.support(cmd.checkable()),
    {
        match cmd.to_checkable() {
            Checkable::Ata(c) => self.chk_ata_cmd(c),
            Checkable::Sanitise(c) => Some(
                SanitizeSubcommands(self.word(OFF_SANITIZE)).is_supported(c),
            ),
        }
    }

    /// The part of [`DeviceIdentity::is_supported`] that checks ATA commands.
    pub fn chk_ata_cmd(&self, cmd: AtaCommand) -> (r: Option<bool>)
        ensures
            r == self.ata_support(cmd),
    {
        let f82 = Features82(self.word(OFF_FEATURES_82));
        let f83 = Features83(self.word(OFF_FEATURES_83));
        let f119 = Features119(self.word(OFF_FEATURES_119));
        if let Some(n) = f82.is_supported(cmd) {
            Some(n)
        } else if let Some(n) = f83.is_supported(cmd) {
            Some(n)
        } else if let Some(n) = f119.is_supported(cmd) {
            Some(n)
        } else if cmd == AtaCommand::SanitizeDevice {
            Some(
                SanitizeSubcommands(self.word(OFF_SANITIZE)).is_supported(
                    SanitiseSubcommand::SanitizeStatusExt,
                ),
            )
        } else {
            None
        }
    }

    /// The world wide name, where the feature word says that it is reported.
    pub fn world_wide_name(&self) -> (r: Option<u64>)
        ensures
            r.is_some() == has_all(word_at(self@, OFF_FEATURES_84 as int), F84_WORLD_WIDE_NAME),
            r.is_some() ==> r.unwrap() == qword_at(self@, OFF_WORLD_WIDE_NAME as int),
    {
        if Features84(self.word(OFF_FEATURES_84)).contains(F84_WORLD_WIDE_NAME) {
            Some(self.qword(OFF_WORLD_WIDE_NAME))
        } else {
            None
        }
    }

    /// The advanced power management level in use.
    pub fn current_power_level(&self) -> (r: ApmLevel)
        ensures
            r == (AdvancedPowerManagement {
                level: self@[OFF_APM_LEVEL as int],
                reserved: self@[OFF_APM_LEVEL + 1],
            }).mode(),
    {
        let apm = AdvancedPowerManagement {
            level: self.byte(OFF_APM_LEVEL),
            reserved: self.byte(OFF_APM_LEVEL + 1),
        };
        apm.get_mode()
    }

    /// Returns the rotation rate of the device, which may be an actual
    /// rate or the mark of a solid state device. `None` indicates a
    /// hardware error.
    pub fn get_dev_rpm(&self) -> (r: Option<RotationRate>)
        ensures
            r == RotationRateField(word_at(self@, OFF_ROTATION_RATE as int)).rate(),
    {
        RotationRateField(self.word(OFF_ROTATION_RATE)).get_rate()
    }

    /// Returns the transport version used by the device: `None` if the
    /// major version is not reported correctly or not supported; a minor
    /// version of `None` may be one that is not recognised.
    pub fn get_transport_version(&self) -> (r: Option<(TransportIf, Option<TransportMinorVersion>)>)
        ensures
            r.is_some() == TransportMajorVersion(
                word_at(self@, OFF_TRANSPORT_MAJOR as int),
            ).version().is_some(),
            r.is_some() ==> r.unwrap().0 == TransportMajorVersion(
                word_at(self@, OFF_TRANSPORT_MAJOR as int),
            ).version().unwrap(),
            r.is_some() ==> r.unwrap().1 == TransportMinorVersionField(
                word_at(self@, OFF_TRANSPORT_MINOR as int),
            ).version(),
    {
        match TransportMajorVersion(self.word(OFF_TRANSPORT_MAJOR)).get_version() {
            Some(major) => Some(
                (major, TransportMinorVersionField(self.word(OFF_TRANSPORT_MINOR)).get_version()),
            ),
            None => None,
        }
    }

    /// Returns the number of command slots this device supports, 32 at most.
    pub fn queue_depth(&self) -> (r: u8)
        ensures
            r == word_at(self@, OFF_QUEUE_DEPTH as int) % 32 + 1,
            1 <= r <= 32,
    {
        QueueDepth(self.word(OFF_QUEUE_DEPTH)).get_depth()
    }

    /// Whether the sector count is to be read from the extended count: the
    /// transfer configuration is valid and says so.
    pub open spec fn uses_extended_count(&self) -> bool {
        word_at(self@, OFF_VALIDITY as int) & 0x0002 != 0 && has_all(
            word_at(self@, OFF_TRANSFER_CFG + 10),
            ADDITIONAL_EXTENDED_SECTOR_ADDRESSES,
        )
    }

    /// The highest logical block address: the extended sector count where
    /// it is in use; else the 28-bit count, unless that is saturated, in
    /// which case the low 48 bits of the 48-bit count.
    pub open spec fn last_lba(&self) -> int {
        if self.uses_extended_count() {
            (SectorCountExt {
                low: dword_at(self@, OFF_SECTOR_COUNT_EXT as int),
                high: dword_at(self@, OFF_SECTOR_COUNT_EXT + 4),
            }).value()
        } else if dword_at(self@, OFF_LBA_28 as int) == 0x0fff_ffff {
            (qword_at(self@, OFF_LOGICAL_SECTORS as int) % 0x1_0000_0000_0000) as int
        } else {
            dword_at(self@, OFF_LBA_28 as int) as int
        }
    }

    /// The size of a logical sector in bytes: 512 with the size flag of the
    /// geometry word set, else twice the size field, which counts 16-bit
    /// words, cut to 32 bits.
    pub open spec fn logical_sector_bytes(&self) -> int {
        if has_all(word_at(self@, OFF_SECTOR_GEOM as int), GEOM_LOGICAL_GREATHER_512_BYTES) {
            512
        } else {
            (2 * dword_at(self@, OFF_LOGICAL_SECTOR_SIZE as int)) % 0x1_0000_0000
        }
    }

    /// The number of bits by which the logical sector size is shifted to
    /// give the physical one.
    pub open spec fn phys_shift(&self) -> nat {
        pow2((word_at(self@, OFF_SECTOR_GEOM as int) % 16) as nat)
    }

    /// The size of a physical sector in bytes: that of a logical sector,
    /// shifted left where the geometry word says that a physical sector
    /// holds several logical ones.
    pub open spec fn phys_sector_bytes(&self) -> int {
        if has_all(word_at(self@, OFF_SECTOR_GEOM as int), GEOM_MULTIPLE_LOGICAL_PER_PHYS) {
            self.logical_sector_bytes() * pow2(self.phys_shift())
        } else {
            self.logical_sector_bytes()
        }
    }

    /// Whether the geometry can be computed in 64 bits: the sector count
    /// fits, and the shift of the physical sector size is below 64.
    pub open spec fn geometry_representable(&self) -> bool {
        &&& self.last_lba() < u64::MAX
        &&& has_all(word_at(self@, OFF_SECTOR_GEOM as int), GEOM_MULTIPLE_LOGICAL_PER_PHYS)
            ==> self.phys_shift() < 64
    }

    /// Executable form of [`DeviceIdentity::geometry_representable`].
    pub fn has_representable_geometry(&self) -> (r: bool)
        ensures
            r == self.geometry_representable(),
    {
        let geom = SectorGeom(self.word(OFF_SECTOR_GEOM));
        let lba_fits = if self.extended_count_in_use() {
            let ext = SectorCountExt {
                low: self.dword(OFF_SECTOR_COUNT_EXT),
                high: self.dword(OFF_SECTOR_COUNT_EXT + 4),
            };
            ext.read() < u64::MAX
        } else {
            true
        };
        let shift_fits = if geom.contains(GEOM_MULTIPLE_LOGICAL_PER_PHYS) {
            geom.log_sec_per_phys() < 64
        } else {
            true
        };
        lba_fits && shift_fits
    }

    fn extended_count_in_use(&self) -> (r: bool)
        ensures
            r == self.uses_extended_count(),
    {
        match self.get_transfer_cfg() {
            Some(t) => t.additonal_supported.contains(ADDITIONAL_EXTENDED_SECTOR_ADDRESSES),
            None => false,
        }
    }

    /// The geometry of the device.
    pub fn get_device_geometry(&self) -> (r: DeviceGeometry)
        requires
            self.geometry_representable(),
        ensures
            r.sector_count == self.last_lba() + 1,
            r.logical_sec_size == self.logical_sector_bytes(),
            r.phys_sec_size == self.phys_sector_bytes(),
            r.alignment == word_at(self@, OFF_SECTOR_ALIGNMENT as int) % 0x4000,
    {
        let lba: u64 = if self.extended_count_in_use() {
            let ext = SectorCountExt {
                low: self.dword(OFF_SECTOR_COUNT_EXT),
                high: self.dword(OFF_SECTOR_COUNT_EXT + 4),
            };
            ext.read()
        } else if self.dword(OFF_LBA_28) == 0x0fff_ffff {
            self.qword(OFF_LOGICAL_SECTORS) % 0x1_0000_0000_0000
        } else {
            self.dword(OFF_LBA_28) as u64
        };
        let geom = SectorGeom(self.word(OFF_SECTOR_GEOM));
        let logical_sec_size: u32 = if geom.contains(GEOM_LOGICAL_GREATHER_512_BYTES) {
            512
        } else {
            (self.dword(OFF_LOGICAL_SECTOR_SIZE) % 0x8000_0000) * 2
        };
        let phys_sec_size: u64 = if geom.contains(GEOM_MULTIPLE_LOGICAL_PER_PHYS) {
            let shift: u16 = geom.log_sec_per_phys();
            proof {
                lemma_pow2_below_64(shift as nat);
                assert(logical_sec_size * pow2(shift as nat) <= u64::MAX) by (nonlinear_arith)
                    requires
                        logical_sec_size <= 0xffff_ffff,
                        0 < pow2(shift as nat) <= 0x8000_0000_0000_0000,
                        shift < 64,
                        pow2(shift as nat) <= 0x1_0000_0000,
                ;
                vstd::bits::lemma_u64_shl_is_mul(logical_sec_size as u64, shift as u64);
            }
            (logical_sec_size as u64) << (shift as u64)
        } else {
            logical_sec_size as u64
        };
        DeviceGeometry {
            sector_count: lba + 1,
            logical_sec_size,
            phys_sec_size,
            alignment: SectorAlignment(self.word(OFF_SECTOR_ALIGNMENT)).get_alignment(),
        }
    }
}

/// A shift that is a power of two and below 64 is at most 32, so a 32-bit
/// number shifted by it fits in 64 bits.
proof fn lemma_pow2_below_64(shift: nat)
    requires
        shift < 64,
        exists|e: nat| e < 16 && shift == pow2(e),
    ensures
        0 < pow2(shift) <= 0x1_0000_0000,
{
    let e = choose|e: nat| e < 16 && shift == pow2(e);
    vstd::arithmetic::power2::lemma2_to64();
    if e >= 6 {
        vstd::arithmetic::power2::lemma_pow2_strictly_increases(5, e);
    }
    assert(e <= 5);
    assert(shift == 1 || shift == 2 || shift == 4 || shift == 8 || shift == 16 || shift == 32);
}

} // verus!
