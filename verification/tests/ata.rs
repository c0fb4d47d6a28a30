use kernel_core::ata::command::AtaCommand;
use kernel_core::ata::command::Checkable;
use kernel_core::ata::command::SanitiseSubcommand;
use kernel_core::ata::fields::AdvancedPowerManagement;
use kernel_core::ata::fields::ApmLevel;
use kernel_core::ata::fields::Capabilities;
use kernel_core::ata::fields::DataManagement;
use kernel_core::ata::fields::DeviceFromFactor;
use kernel_core::ata::fields::EraseTime;
use kernel_core::ata::fields::Features119;
use kernel_core::ata::fields::Features82;
use kernel_core::ata::fields::Features83;
use kernel_core::ata::fields::FormFactor;
use kernel_core::ata::fields::GeneralCfg;
use kernel_core::ata::fields::MajorVersion;
use kernel_core::ata::fields::MultiwordDma;
use kernel_core::ata::fields::MultiwordDmaMode;
use kernel_core::ata::fields::ParallelVersion;
use kernel_core::ata::fields::PioMode;
use kernel_core::ata::fields::QueueDepth;
use kernel_core::ata::fields::RotationRate;
use kernel_core::ata::fields::RotationRateField;
use kernel_core::ata::fields::SCTCommandTransport;
use kernel_core::ata::fields::SanitizeSubcommands;
use kernel_core::ata::fields::SataCap2;
use kernel_core::ata::fields::SectorAlignment;
use kernel_core::ata::fields::SectorCountExt;
use kernel_core::ata::fields::SectorGeom;
use kernel_core::ata::fields::SerialVersion;
use kernel_core::ata::fields::SpecificCfg;
use kernel_core::ata::fields::TransportIf;
use kernel_core::ata::fields::TransportMajorVersion;
use kernel_core::ata::fields::TransportMinorVersion;
use kernel_core::ata::fields::TransportMinorVersionField;
use kernel_core::ata::fields::TrustedComputing;
use kernel_core::ata::fields::UltraDma;
use kernel_core::ata::fields::UltraDmaMode;
use kernel_core::ata::fields::WriteReadVerify;
use kernel_core::ata::fields::WriteReadVerifyMode;
use kernel_core::ata::fields::F82_NOP;
use kernel_core::ata::fields::F82_SMART;
use kernel_core::ata::fields::MAJOR_ACS_4;
use kernel_core::ata::identification::DeviceGeometry;
use kernel_core::ata::identification::DeviceIdentity;
use kernel_core::ata::identification::DECODE_FAILED;

fn put16(b: &mut [u8; 512], off: usize, v: u16) {
    b[off] = v as u8;
    b[off + 1] = (v >> 8) as u8;
}

fn put32(b: &mut [u8; 512], off: usize, v: u32) {
    put16(b, off, v as u16);
    put16(b, off + 2, (v >> 16) as u16);
}

fn put64(b: &mut [u8; 512], off: usize, v: u64) {
    put32(b, off, v as u32);
    put32(b, off + 4, (v >> 32) as u32);
}

fn identity(fill: impl Fn(&mut [u8; 512])) -> DeviceIdentity {
    let mut b = [0u8; 512];
    fill(&mut b);
    DeviceIdentity::from_bytes(b)
}

#[test]
fn general_cfg_bits() {
    assert!(GeneralCfg(0).is_ata());
    assert!(!GeneralCfg(0x8000).is_ata());
    assert!(GeneralCfg(0x7ffb).is_complete());
    assert!(!GeneralCfg(0x0004).is_complete());
}

#[test]
fn specific_cfg_values() {
    assert_eq!(SpecificCfg::from_word(0x37c8), SpecificCfg::ReqSpinUpInCom);
    assert_eq!(SpecificCfg::from_word(0x738c), SpecificCfg::ReqSpinUpCom);
    assert_eq!(SpecificCfg::from_word(0x8c73), SpecificCfg::NoSpinUpInCom);
    assert_eq!(SpecificCfg::from_word(0xc837), SpecificCfg::NoSpinUpCom);
    assert_eq!(SpecificCfg::from_word(0x1234), SpecificCfg::Reserved(0x1234));
}

#[test]
fn single_bit_fields() {
    assert!(TrustedComputing(1).is_supported());
    assert!(!TrustedComputing(0xfffe).is_supported());
    assert!(DataManagement(1).trim_support());
    assert!(!DataManagement(2).trim_support());
    assert!(PioMode(2).mode_4_supported());
    assert!(PioMode(2).mode_3_supported());
    assert!(!PioMode(1).mode_3_supported());
    assert!(SanitizeSubcommands(0).is_acs2());
    assert!(!SanitizeSubcommands(0x0800).is_acs2());
}

#[test]
fn small_number_fields() {
    assert_eq!(Capabilities(0xfffe).long_sec_err_reporting(), 2);
    assert_eq!(QueueDepth(0).get_depth(), 1);
    assert_eq!(QueueDepth(0xffff).get_depth(), 32);
    assert_eq!(QueueDepth(0x001e).get_depth(), 31);
    assert_eq!(SataCap2(0xfff3).get_sata_gen(), 3);
    assert_eq!(SCTCommandTransport(0xa123).get_vendor(), 0xa);
    assert_eq!(SectorAlignment(0xffff).get_alignment(), 0x3fff);
    assert_eq!(SectorGeom(0x0000).log_sec_per_phys(), 1);
    assert_eq!(SectorGeom(0x3003).log_sec_per_phys(), 8);
    assert_eq!(SectorGeom(0x000f).log_sec_per_phys(), 0x8000);
    assert_eq!(SectorCountExt { low: 0x89ab_cdef, high: 0x0123_4567 }.read(), 0x0123_4567_89ab_cdef);
}

#[test]
fn flag_sets_contain_what_is_set() {
    let f = Features82(F82_NOP | F82_SMART);
    assert!(f.contains(F82_NOP));
    assert!(f.contains(F82_NOP | F82_SMART));
    assert!(!f.contains(0x2000));
    assert!(MajorVersion(MAJOR_ACS_4).contains(MAJOR_ACS_4));
    assert!(MajorVersion(1).contains_data());
    assert!(!MajorVersion(0).contains_data());
    assert!(!MajorVersion(0xffff).contains_data());
}

#[test]
fn sanitize_support() {
    let none = SanitizeSubcommands(0xe400);
    assert!(!none.is_supported(SanitiseSubcommand::CryptoScrambleExt));
    assert!(!none.is_supported(SanitiseSubcommand::SanitizeStatusExt));
    let s = SanitizeSubcommands(0x1000 | 0x2000);
    assert!(s.is_supported(SanitiseSubcommand::CryptoScrambleExt));
    assert!(!s.is_supported(SanitiseSubcommand::BlockEraseExt));
    assert!(!s.is_supported(SanitiseSubcommand::OverwriteExt));
    assert!(!s.is_supported(SanitiseSubcommand::SanitizeAntifreezeLockExt));
    assert!(s.is_supported(SanitiseSubcommand::SanitizeStatusExt));
    assert!(s.is_supported(SanitiseSubcommand::SanitizeFreezeLockExt));
    assert!(SanitizeSubcommands(0x9000).is_supported(SanitiseSubcommand::BlockEraseExt));
    assert!(SanitizeSubcommands(0x5000).is_supported(SanitiseSubcommand::OverwriteExt));
    assert!(SanitizeSubcommands(0x1400).is_supported(SanitiseSubcommand::SanitizeAntifreezeLockExt));
}

#[test]
fn multiword_dma_modes() {
    assert_eq!(MultiwordDma(0).max_supported_mode(), None);
    assert_eq!(MultiwordDma(1).max_supported_mode(), Some(MultiwordDmaMode::Mode0));
    assert_eq!(MultiwordDma(2).max_supported_mode(), Some(MultiwordDmaMode::Mode0));
    assert_eq!(MultiwordDma(3).max_supported_mode(), Some(MultiwordDmaMode::Mode1));
    assert_eq!(MultiwordDma(4).max_supported_mode(), Some(MultiwordDmaMode::Mode1));
    assert_eq!(MultiwordDma(7).max_supported_mode(), Some(MultiwordDmaMode::Mode2));
    assert_eq!(MultiwordDma(0xfff8).max_supported_mode(), None);
    assert!(MultiwordDma(0x0400).is_selected(MultiwordDmaMode::Mode2));
    assert!(MultiwordDma(0x0200).is_selected(MultiwordDmaMode::Mode1));
    assert!(MultiwordDma(0x0100).is_selected(MultiwordDmaMode::Mode0));
    assert!(!MultiwordDma(0x0100).is_selected(MultiwordDmaMode::Mode1));
}

#[test]
fn ultra_dma_modes() {
    assert_eq!(UltraDma { selected: 0, supported: 0x7f }.current(), None);
    assert_eq!(UltraDma { selected: 1, supported: 0 }.current(), Some(UltraDmaMode::Mode0));
    assert_eq!(UltraDma { selected: 8, supported: 0 }.current(), Some(UltraDmaMode::Mode3));
    assert_eq!(UltraDma { selected: 64, supported: 0 }.current(), Some(UltraDmaMode::Mode6));
    assert_eq!(UltraDma { selected: 3, supported: 0 }.current(), None);
    assert_eq!(UltraDma { selected: 128, supported: 0 }.current(), None);
    let u = UltraDma { selected: 0, supported: 0b0010_0101 };
    assert!(u.is_supported(UltraDmaMode::Mode0));
    assert!(!u.is_supported(UltraDmaMode::Mode1));
    assert!(u.is_supported(UltraDmaMode::Mode2));
    assert!(u.is_supported(UltraDmaMode::Mode5));
    assert!(!u.is_supported(UltraDmaMode::Mode6));
}

#[test]
fn erase_time_formats() {
    assert_eq!(EraseTime(0x8123).get_erase_time(), 0x0123);
    assert_eq!(EraseTime(0x7f42).get_erase_time(), 0x42);
    assert_eq!(EraseTime(0xffff).get_erase_time(), 0x7fff);
}

#[test]
fn apm_levels() {
    let level = |l: u8| AdvancedPowerManagement { level: l, reserved: 0 }.get_mode();
    assert_eq!(level(0), ApmLevel::Reserved(0));
    assert_eq!(level(1), ApmLevel::MinimumStandby);
    assert_eq!(level(2), ApmLevel::IntermediateStandby(2));
    assert_eq!(level(0x7f), ApmLevel::IntermediateStandby(0x7f));
    assert_eq!(level(0x80), ApmLevel::MinimumStandby);
    assert_eq!(level(0x81), ApmLevel::Intermediate(0x81));
    assert_eq!(level(0xfd), ApmLevel::Intermediate(0xfd));
    assert_eq!(level(0xfe), ApmLevel::MaxPerformance);
    assert_eq!(level(0xff), ApmLevel::Reserved(0xff));
}

#[test]
fn form_factors() {
    assert_eq!(FormFactor(0xfff0).form(), Some(DeviceFromFactor::NotReported));
    assert_eq!(FormFactor(1).form(), Some(DeviceFromFactor::Size5_25));
    assert_eq!(FormFactor(2).form(), Some(DeviceFromFactor::Size3_5));
    assert_eq!(FormFactor(3).form(), Some(DeviceFromFactor::Size2_5));
    assert_eq!(FormFactor(4).form(), Some(DeviceFromFactor::Size1_8));
    assert_eq!(FormFactor(5).form(), Some(DeviceFromFactor::SmallerThan1_8));
    assert_eq!(FormFactor(6).form(), Some(DeviceFromFactor::MicroSSD));
    assert_eq!(FormFactor(7).form(), Some(DeviceFromFactor::M_2));
    assert_eq!(FormFactor(8).form(), Some(DeviceFromFactor::MicroSSD));
    assert_eq!(FormFactor(9).form(), Some(DeviceFromFactor::CFast));
    assert_eq!(FormFactor(10).form(), None);
    assert_eq!(FormFactor(15).form(), None);
}

#[test]
fn rotation_rates() {
    assert_eq!(RotationRateField(0).get_rate(), Some(RotationRate::NotReported));
    assert_eq!(RotationRateField(1).get_rate(), Some(RotationRate::SolidState));
    assert_eq!(RotationRateField(2).get_rate(), None);
    assert_eq!(RotationRateField(0x400).get_rate(), None);
    assert_eq!(RotationRateField(0x401).get_rate(), Some(RotationRate::Rpm(0x401)));
    assert_eq!(RotationRateField(7200).get_rate(), Some(RotationRate::Rpm(7200)));
    assert_eq!(RotationRateField(0xfffe).get_rate(), Some(RotationRate::Rpm(0xfffe)));
    assert_eq!(RotationRateField(0xffff).get_rate(), None);
}

#[test]
fn write_read_verify_modes() {
    assert_eq!(WriteReadVerifyMode(0).get_mode(), Some(WriteReadVerify::Always));
    assert_eq!(WriteReadVerifyMode(1).get_mode(), Some(WriteReadVerify::Check64K));
    assert_eq!(WriteReadVerifyMode(2).get_mode(), Some(WriteReadVerify::VendorSpecific));
    assert_eq!(WriteReadVerifyMode(3).get_mode(), Some(WriteReadVerify::CheckFromCounter));
    assert_eq!(WriteReadVerifyMode(4).get_mode(), None);
}

#[test]
fn transport_versions() {
    assert_eq!(ParallelVersion::try_from(0xf000), Ok(ParallelVersion::Ata8));
    assert_eq!(ParallelVersion::try_from(0x0001), Ok(ParallelVersion::Ata7));
    assert_eq!(ParallelVersion::try_from(0x1002), Err(2));
    assert_eq!(SerialVersion::try_from(0), Ok(SerialVersion::Ata8));
    assert_eq!(SerialVersion::try_from(1), Ok(SerialVersion::Sata1));
    assert_eq!(SerialVersion::try_from(2), Ok(SerialVersion::Sata2));
    assert_eq!(SerialVersion::try_from(3), Ok(SerialVersion::Sata2_5));
    assert_eq!(SerialVersion::try_from(4), Ok(SerialVersion::Sata2_6));
    assert_eq!(SerialVersion::try_from(5), Ok(SerialVersion::Sata3_0));
    assert_eq!(SerialVersion::try_from(6), Ok(SerialVersion::Sata3_1));
    assert_eq!(SerialVersion::try_from(0x1007), Ok(SerialVersion::Sata3_2));
    assert_eq!(SerialVersion::try_from(0x1008), Err(8));
    assert_eq!(TransportMajorVersion(0x0001).get_version(), Some(TransportIf::Parallel(ParallelVersion::Ata7)));
    assert_eq!(TransportMajorVersion(0x0002).get_version(), None);
    assert_eq!(TransportMajorVersion(0x1005).get_version(), Some(TransportIf::Serial(SerialVersion::Sata3_0)));
    assert_eq!(TransportMajorVersion(0x1fff).get_version(), None);
    assert_eq!(TransportMajorVersion(0xe123).get_version(), Some(TransportIf::Pcie));
    assert_eq!(TransportMajorVersion(0x2000).get_version(), None);
    assert_eq!(TransportMinorVersionField(0).get_version(), Some(TransportMinorVersion::NotReported));
    assert_eq!(TransportMinorVersionField(0xffff).get_version(), Some(TransportMinorVersion::NotReported));
    assert_eq!(
        TransportMinorVersionField(0x21).get_version(),
        Some(TransportMinorVersion::Ata8_AstT13ProjectD1697V0b)
    );
    assert_eq!(TransportMinorVersionField(0x51).get_version(), Some(TransportMinorVersion::Ata_AstT13ProjectD1697V1));
    assert_eq!(TransportMinorVersionField(0x22).get_version(), None);
}

#[test]
fn feature_words_answer_for_their_commands_only() {
    assert_eq!(Features82(0x4000).is_supported(AtaCommand::Nop), Some(true));
    assert_eq!(Features82(0).is_supported(AtaCommand::Nop), Some(false));
    assert_eq!(Features82(0x2000).is_supported(AtaCommand::ReadBuffer), Some(true));
    assert_eq!(Features82(0x1000).is_supported(AtaCommand::WriteBuffer), Some(true));
    assert_eq!(Features82(1).is_supported(AtaCommand::Smart), Some(true));
    assert_eq!(Features82(0xffff).is_supported(AtaCommand::FlushCache), None);
    assert_eq!(Features83(0x2000).is_supported(AtaCommand::FlushCacheExt), Some(true));
    assert_eq!(Features83(0x1000).is_supported(AtaCommand::FlushCache), Some(true));
    assert_eq!(Features83(0xfffe).is_supported(AtaCommand::DownloadMicrocode), Some(false));
    assert_eq!(Features83(0xffff).is_supported(AtaCommand::Nop), None);
    assert_eq!(Features119(8).is_supported(AtaCommand::ReadLogDmaExt), Some(true));
    assert_eq!(Features119(8).is_supported(AtaCommand::WriteLogDmaExt), Some(true));
    assert_eq!(Features119(8).is_supported(AtaCommand::WriteUncorrectableExt), Some(false));
    assert_eq!(Features119(4).is_supported(AtaCommand::WriteUncorrectableExt), Some(true));
    assert_eq!(Features119(0xffff).is_supported(AtaCommand::SanitizeDevice), None);
}

#[test]
fn identity_words_are_little_endian() {
    let id = identity(|b| {
        b[0] = 0x04;
        b[1] = 0x80;
        put16(b, 4, 0x37c8);
    });
    assert_eq!(id.get_general_config(), GeneralCfg(0x8004));
    assert!(!id.get_general_config().is_ata());
    assert!(!id.get_general_config().is_complete());
    assert_eq!(id.get_specific_cfg(), SpecificCfg::ReqSpinUpInCom);
    assert_eq!(id.as_bytes()[1], 0x80);
}

#[test]
fn identity_strings() {
    let id = identity(|b| {
        b[18..38].copy_from_slice(b"SERIAL-0123456789abc");
        b[44..52].copy_from_slice(b"FW1.0   ");
        b[52..92].copy_from_slice(b"A model name of exactly forty bytes long");
    });
    assert_eq!(id.get_serial(), "SERIAL-0123456789abc");
    assert_eq!(id.firmware_revision(), "FW1.0   ");
    assert_eq!(id.model_num(), "A model name of exactly forty bytes long");
}

#[test]
fn identity_string_that_is_not_utf8() {
    let id = identity(|b| {
        b[18] = 0xff;
        b[44] = 0xc3;
        b[45] = 0x28;
    });
    assert_eq!(id.get_serial(), DECODE_FAILED);
    assert_eq!(id.get_serial(), "Failed to decode ata string");
    assert_eq!(id.firmware_revision(), DECODE_FAILED);
    assert_eq!(id.model_num(), "\0".repeat(40));
}

#[test]
fn identity_validity_word() {
    let id = identity(|b| put16(b, 102, 0xa506));
    assert_eq!(id.free_fall_sensitivity(), 0xa5);
    assert!(id.word_88_valid());
    assert!(id.word_64_70_valid());
    let id = identity(|b| put16(b, 102, 0x0001));
    assert!(!id.word_88_valid());
    assert!(!id.word_64_70_valid());
}

#[test]
fn identity_transfer_cfg() {
    let id = identity(|b| {
        put16(b, 102, 0x0002);
        put16(b, 124, 0x0002);
        put16(b, 126, 120);
        put16(b, 128, 121);
        put16(b, 130, 122);
        put16(b, 132, 123);
        put16(b, 134, 0x0008);
        put16(b, 136, 7);
    });
    let t = id.get_transfer_cfg().unwrap();
    assert!(t.pio_mode.mode_4_supported());
    assert_eq!(t.min_dma_time, 120);
    assert_eq!(t.recommended_min_dma_time, 121);
    assert_eq!(t.min_pio_time, 122);
    assert_eq!(t.min_pio_time_iordy, 123);
    assert!(t.additonal_supported.contains(0x0008));
    assert_eq!(t.reserved, 7);
    let id = identity(|b| put16(b, 124, 0x0002));
    assert!(id.get_transfer_cfg().is_none());
}

#[test]
fn identity_version_info() {
    let id = identity(|b| {
        put16(b, 102, 0x0004);
        put16(b, 154, 0x0800);
        put16(b, 156, 0x0042);
        put16(b, 444, 0x1007);
        put16(b, 446, 0x0021);
    });
    let v = id.version_info();
    assert_eq!(v.major_vers, Some(MajorVersion(0x0800)));
    assert_eq!(v.minor_vers, 0x42);
    assert_eq!(v.transport_major, Some(TransportIf::Serial(SerialVersion::Sata3_2)));
    assert_eq!(v.transport_minor, Some(TransportMinorVersion::Ata8_AstT13ProjectD1697V0b));
    assert_eq!(
        id.get_transport_version(),
        Some((TransportIf::Serial(SerialVersion::Sata3_2), Some(TransportMinorVersion::Ata8_AstT13ProjectD1697V0b)))
    );
}

#[test]
fn identity_version_needs_a_valid_word_with_data() {
    let id = identity(|b| put16(b, 154, 0x0800));
    assert_eq!(id.version_info().major_vers, None);
    let id = identity(|b| {
        put16(b, 102, 0x0004);
        put16(b, 154, 0xffff);
    });
    assert_eq!(id.version_info().major_vers, None);
    let id = identity(|b| put16(b, 444, 0x3000));
    assert_eq!(id.get_transport_version(), None);
    let id = identity(|b| put16(b, 446, 0x0099));
    assert_eq!(id.get_transport_version(), Some((TransportIf::Parallel(ParallelVersion::Ata8), None)));
}

#[test]
fn identity_command_support() {
    let id = identity(|b| {
        put16(b, 158, 0x4000);
        put16(b, 160, 0x1000);
        put16(b, 240, 0x0008);
        put16(b, 114, 0x1000);
    });
    assert_eq!(id.is_supported(AtaCommand::Nop), Some(true));
    assert_eq!(id.is_supported(AtaCommand::Smart), Some(false));
    assert_eq!(id.is_supported(AtaCommand::FlushCache), Some(true));
    assert_eq!(id.is_supported(AtaCommand::FlushCacheExt), Some(false));
    assert_eq!(id.is_supported(AtaCommand::ReadLogDmaExt), Some(true));
    assert_eq!(id.is_supported(AtaCommand::WriteUncorrectableExt), Some(false));
    assert_eq!(id.is_supported(AtaCommand::SanitizeDevice), Some(true));
    assert_eq!(id.is_supported(AtaCommand::IdentifyDevice), None);
    assert_eq!(id.chk_ata_cmd(AtaCommand::ReadDmaExt), None);
    assert_eq!(id.is_supported(SanitiseSubcommand::SanitizeStatusExt), Some(true));
    assert_eq!(id.is_supported(SanitiseSubcommand::OverwriteExt), Some(false));
    assert_eq!(id.is_supported(Checkable::Ata(AtaCommand::Nop)), Some(true));
    assert_eq!(id.is_supported(Checkable::Sanitise(SanitiseSubcommand::BlockEraseExt)), Some(false));
    let without = identity(|_| {});
    assert_eq!(without.is_supported(AtaCommand::SanitizeDevice), Some(false));
}

#[test]
fn identity_world_wide_name() {
    let id = identity(|b| {
        put16(b, 162, 0x0100);
        put64(b, 216, 0x5000_c500_1234_5678);
    });
    assert_eq!(id.world_wide_name(), Some(0x5000_c500_1234_5678));
    let id = identity(|b| put64(b, 216, 0x5000_c500_1234_5678));
    assert_eq!(id.world_wide_name(), None);
}

#[test]
fn identity_small_getters() {
    let id = identity(|b| {
        b[176] = 0xfe;
        put16(b, 438, 5400);
        put16(b, 146, 0x001f);
    });
    assert_eq!(id.current_power_level(), ApmLevel::MaxPerformance);
    assert_eq!(id.get_dev_rpm(), Some(RotationRate::Rpm(5400)));
    assert_eq!(id.queue_depth(), 32);
}

#[test]
fn geometry_from_the_28_bit_count() {
    let id = identity(|b| {
        put32(b, 116, 0x0012_3456);
        put32(b, 236, 256);
        put16(b, 420, 0xc003);
    });
    assert!(id.has_representable_geometry());
    let g = id.get_device_geometry();
    assert_eq!(
        g,
        DeviceGeometry { sector_count: 0x0012_3457, logical_sec_size: 512, phys_sec_size: 512, alignment: 3 }
    );
    assert!(!g.multiple_lbas_per_sector());
}

#[test]
fn geometry_from_the_48_bit_count() {
    let id = identity(|b| {
        put32(b, 116, 0x0fff_ffff);
        put64(b, 200, 0xabcd_0000_1000_0000);
        put16(b, 212, 0x1000);
    });
    let g = id.get_device_geometry();
    assert_eq!(g.sector_count, 0x0000_1000_0001);
    assert_eq!(g.logical_sec_size, 512);
    assert_eq!(g.phys_sec_size, 512);
}

#[test]
fn geometry_from_the_extended_count() {
    let id = identity(|b| {
        put16(b, 102, 0x0002);
        put16(b, 134, 0x0008);
        put32(b, 116, 5);
        put32(b, 460, 0x0000_0010);
        put32(b, 464, 0x0000_0002);
        put16(b, 212, 0x3003);
    });
    let g = id.get_device_geometry();
    assert_eq!(g.sector_count, 0x0000_0002_0000_0011);
    assert_eq!(g.logical_sec_size, 512);
    assert_eq!(g.phys_sec_size, 512 << 8);
    assert!(g.multiple_lbas_per_sector());
}

#[test]
fn geometry_logical_size_wraps_at_32_bits() {
    let id = identity(|b| put32(b, 236, 0x8000_0100));
    assert_eq!(id.get_device_geometry().logical_sec_size, 0x200);
}

#[test]
fn geometry_that_does_not_fit() {
    let full = identity(|b| {
        put16(b, 102, 0x0002);
        put16(b, 134, 0x0008);
        put32(b, 460, 0xffff_ffff);
        put32(b, 464, 0xffff_ffff);
    });
    assert!(!full.has_representable_geometry());
    let shift = identity(|b| put16(b, 212, 0x2006));
    assert!(!shift.has_representable_geometry());
    let ok = identity(|b| put16(b, 212, 0x2005));
    assert!(ok.has_representable_geometry());
    assert_eq!(ok.get_device_geometry().phys_sec_size, 0);
}

#[test]
fn checksum_of_a_block() {
    let zero = identity(|_| {});
    assert!(zero.checksum());
    let off = identity(|b| b[0] = 1);
    assert!(!off.checksum());
    let balanced = identity(|b| {
        b[0] = 1;
        b[300] = 0xff;
        b[510] = 0xa5;
        b[12] = 0x5b;
    });
    assert!(balanced.checksum());
    let last_byte_is_left_out = identity(|b| b[511] = 0x77);
    assert!(last_byte_is_left_out.checksum());
    let marked = identity(|b| {
        b[510] = 0x5a;
        b[0] = 0xa6;
    });
    assert!(!marked.checksum());
}
