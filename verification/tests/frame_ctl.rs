use kernel_core::serial::dispatcher::DevID;
use kernel_core::serial::dispatcher::FrameCtlBFile;
use kernel_core::serial::dispatcher::SerialDispatcher;
use kernel_core::serial::dispatcher::SerialDispatcherInner;
use kernel_core::serial::frame_ctl::baud_for;
use kernel_core::serial::frame_ctl::divisor_for;
use kernel_core::serial::frame_ctl::format_number;
use kernel_core::serial::frame_ctl::parse_frame_ctl;
use kernel_core::serial::frame_ctl::parse_number;
use kernel_core::serial::frame_ctl::render_frame_ctl;
use kernel_core::serial::frame_ctl::FrameCtl;
use kernel_core::serial::port::Serial;
use kernel_core::serial::DataBits;
use kernel_core::serial::FileType;
use kernel_core::serial::IoError;
use kernel_core::serial::Parity;
use kernel_core::serial::StopBits;

fn port_8n1(divisor: u16) -> SerialDispatcherInner<u32> {
    let frame = FrameCtl { divisor, data_bits: DataBits::Eight, parity: Parity::Off, stop_bits: StopBits::One };
    SerialDispatcherInner::new(Serial::new(frame).unwrap(), DevID { major: 4, minor: 0 })
}

fn ctl() -> FrameCtlBFile {
    SerialDispatcher::new().b_file(0).unwrap().as_normal_file().unwrap()
}

#[test]
fn frame_ctl_round_trip() {
    let mut inner = port_8n1(1);
    let mut file = ctl();
    assert_eq!(file.write(&mut inner, b"9600-8N1"), Ok(8));
    assert_eq!(file.read(&inner, 16), Ok(b"9600-8N1".to_vec()));
}

#[test]
fn frame_ctl_rejects_baud_above_the_maximum() {
    let mut inner = port_8n1(12);
    let mut file = ctl();
    assert_eq!(file.write(&mut inner, b"115201-8N1"), Err((IoError::InvalidData, 0)));
    assert_eq!(file.read(&inner, 10), Ok(b"9600-8N1".to_vec()));
}

#[test]
fn frame_ctl_rejects_nine_data_bits() {
    let mut inner = port_8n1(12);
    let mut file = ctl();
    assert_eq!(file.write(&mut inner, b"9600-9N1"), Err((IoError::InvalidData, 0)));
    assert_eq!(file.read(&inner, 10), Ok(b"9600-8N1".to_vec()));
}

#[test]
fn frame_ctl_accepts_the_maximum() {
    let mut inner = port_8n1(12);
    let mut file = ctl();
    assert_eq!(file.write(&mut inner, b"115200-8N1"), Ok(10));
    assert_eq!(file.read(&inner, 10), Ok(b"115200-8N1".to_vec()));
}

#[test]
fn frame_ctl_parses_every_field() {
    assert_eq!(
        parse_frame_ctl(b"9600-8N1"),
        Some(FrameCtl { divisor: 12, data_bits: DataBits::Eight, parity: Parity::Off, stop_bits: StopBits::One })
    );
    assert_eq!(
        parse_frame_ctl(b"57600-5o2"),
        Some(FrameCtl { divisor: 2, data_bits: DataBits::Five, parity: Parity::Odd, stop_bits: StopBits::Two })
    );
    assert_eq!(
        parse_frame_ctl(b"2400-6E1"),
        Some(FrameCtl { divisor: 48, data_bits: DataBits::Six, parity: Parity::Even, stop_bits: StopBits::One })
    );
    assert_eq!(
        parse_frame_ctl(b"300-7m2"),
        Some(FrameCtl { divisor: 384, data_bits: DataBits::Seven, parity: Parity::Mark, stop_bits: StopBits::Two })
    );
    assert_eq!(
        parse_frame_ctl(b"2-8s1"),
        Some(FrameCtl { divisor: 57600, data_bits: DataBits::Eight, parity: Parity::Space, stop_bits: StopBits::One })
    );
}

#[test]
fn frame_ctl_number_may_have_a_sign_and_zeros() {
    assert_eq!(parse_frame_ctl(b"+9600-8N1").map(|f| f.divisor), Some(12));
    assert_eq!(parse_frame_ctl(b"0009600-8N1").map(|f| f.divisor), Some(12));
    assert_eq!(parse_frame_ctl(b"00000000000000000009600-8N1").map(|f| f.divisor), Some(12));
}

#[test]
fn frame_ctl_rejects_malformed_text() {
    for text in [
        &b""[..],
        b"-8N1",
        b"+-8N1",
        b"9600",
        b"9600-8N",
        b"9600-8N1 ",
        b" 9600-8N1",
        b"9600-8N11",
        b"9600_8N1",
        b"96a0-8N1",
        b"-9600-8N1",
        b"9600--8N1",
        b"9600-4N1",
        b"9600-8X1",
        b"9600-8N0",
        b"9600-8N3",
        b"0-8N1",
        b"000-8N1",
        b"1-8N1",
        b"115201-8N1",
        b"4294967296-8N1",
        b"99999999999999999999-8N1",
        b"9600-8\xc3\x891",
        b"\xff600-8N1",
    ] {
        assert_eq!(parse_frame_ctl(text), None, "{:?}", text);
    }
}

#[test]
fn divisor_is_rounded_half_up() {
    assert_eq!(divisor_for(115200), 1);
    assert_eq!(divisor_for(9600), 12);
    assert_eq!(divisor_for(2), 57600);
    assert_eq!(divisor_for(1), 115200);
    // 115200 / 76800 = 1.5
    assert_eq!(divisor_for(76800), 2);
    // 115200 / 76801 is just below 1.5
    assert_eq!(divisor_for(76801), 1);
    // 115200 / 46080 = 2.5
    assert_eq!(divisor_for(46080), 3);
    assert_eq!(divisor_for(46081), 2);
    assert_eq!(divisor_for(100000), 1);
}

#[test]
fn baud_is_rounded_half_to_even() {
    assert_eq!(baud_for(1), 115200);
    assert_eq!(baud_for(12), 9600);
    assert_eq!(baud_for(7), 16457);
    assert_eq!(baud_for(11), 10473);
    // 115200 / 1024 = 112.5
    assert_eq!(baud_for(1024), 112);
    // 115200 / 9216 = 12.5
    assert_eq!(baud_for(9216), 12);
    // 115200 / 3072 = 37.5
    assert_eq!(baud_for(3072), 38);
    assert_eq!(baud_for(65535), 2);
}

#[test]
fn numbers_in_decimal() {
    assert_eq!(format_number(0), b"0".to_vec());
    assert_eq!(format_number(7), b"7".to_vec());
    assert_eq!(format_number(10), b"10".to_vec());
    assert_eq!(format_number(115200), b"115200".to_vec());
    assert_eq!(format_number(4294967295), b"4294967295".to_vec());
    assert_eq!(parse_number(b"0"), Some(0));
    assert_eq!(parse_number(b"+42"), Some(42));
    assert_eq!(parse_number(b"115200"), Some(115200));
    assert_eq!(parse_number(b"115201"), Some(115201));
    assert_eq!(parse_number(b"999999999999"), Some(115201));
    assert_eq!(parse_number(b""), None);
    assert_eq!(parse_number(b"+"), None);
    assert_eq!(parse_number(b"4+2"), None);
    assert_eq!(parse_number(b"12a"), None);
}

#[test]
fn settings_as_text() {
    let f = FrameCtl { divisor: 384, data_bits: DataBits::Seven, parity: Parity::Even, stop_bits: StopBits::Two };
    assert_eq!(render_frame_ctl(&f), b"300-7E2".to_vec());
    let f = FrameCtl { divisor: 65535, data_bits: DataBits::Five, parity: Parity::Space, stop_bits: StopBits::One };
    assert_eq!(render_frame_ctl(&f), b"2-5S1".to_vec());
}

#[test]
fn frame_ctl_write_normalises_what_is_read() {
    let mut inner = port_8n1(1);
    let mut file = ctl();
    assert_eq!(file.write(&mut inner, b"+0019200-7e2"), Ok(12));
    assert_eq!(file.read(&inner, 64), Ok(b"19200-7E2".to_vec()));
}

#[test]
fn frame_ctl_read_needs_room_for_the_text() {
    let inner = port_8n1(12);
    let file = ctl();
    assert_eq!(file.read(&inner, 7), Err((IoError::EndOfFile, 7)));
    assert_eq!(file.read(&inner, 0), Err((IoError::EndOfFile, 0)));
    assert_eq!(file.read(&inner, 8), Ok(b"9600-8N1".to_vec()));
}

#[test]
fn frame_ctl_without_a_port() {
    let mut inner = port_8n1(12);
    assert!(inner.detach().is_some());
    let mut file = ctl();
    assert_eq!(file.read(&inner, 16), Err((IoError::MediaError, 0)));
    assert_eq!(file.write(&mut inner, b"9600-8N1"), Err((IoError::MediaError, 0)));
    assert_eq!(file.write(&mut inner, b"bogus"), Err((IoError::InvalidData, 0)));
}

#[test]
fn frame_ctl_file_properties() {
    let inner = port_8n1(12);
    let file = ctl();
    assert_eq!(file.file_type(), FileType::NormalFile);
    assert_eq!(file.block_size(), 4096);
    assert_eq!(file.id(), 0);
    assert_eq!(file.len(), Ok(4096));
    assert_eq!(file.len_chars(), Ok(4096));
    assert_eq!(file.unlock_unsafe(), Err(IoError::NotSupported));
    assert_eq!(file.file_lock(), Err((IoError::NotSupported, file)));
    assert_eq!(file.device(&inner), DevID { major: 4, minor: 0 });
}

#[test]
fn serial_refuses_a_divisor_of_zero() {
    let frame = FrameCtl { divisor: 0, data_bits: DataBits::Eight, parity: Parity::Off, stop_bits: StopBits::One };
    assert!(Serial::new(frame).is_none());
    let mut port = Serial::new(FrameCtl { divisor: 3, ..frame }).unwrap();
    assert!(!port.set_divisor(0));
    assert_eq!(port.frame().divisor, 3);
    assert!(port.set_divisor(6));
    assert_eq!(port.frame().divisor, 6);
    port.set_char_mode(DataBits::Six, Parity::Mark, StopBits::Two);
    assert_eq!(
        port.frame(),
        FrameCtl { divisor: 6, data_bits: DataBits::Six, parity: Parity::Mark, stop_bits: StopBits::Two }
    );
}
