//! Errors, reports, texts and the Coldcard handle.

use hidraw_rs::coldcard::protocol::Step;
use hidraw_rs::coldcard::ColdcardDevice;
use hidraw_rs::hidraw::enumerate::Enumeration;
use hidraw_rs::hidraw::paths::join;
use hidraw_rs::hidraw::HidrawDevice;
use hidraw_rs::protocol::{HidReport, ReportType};
use hidraw_rs::scan::{parse_hex_u16, parse_i32, trim};
use hidraw_rs::text::{u128_to_decimal, u16_to_hex4, usize_to_decimal};
use hidraw_rs::timeout::Timeout;
use hidraw_rs::{DeviceInfo, Error, HidDevice, IoError, IoErrorKind};

#[test]
fn error_kinds_are_told_apart() {
    assert!(Error::Timeout.is_timeout());
    assert!(!Error::Disconnected.is_timeout());
    assert!(!Error::io_error("x").is_timeout());

    assert!(Error::PermissionDenied.is_permission_denied());
    assert!(Error::Io(IoError::new(IoErrorKind::PermissionDenied, "no")).is_permission_denied());
    assert!(!Error::Io(IoError::new(IoErrorKind::NotFound, "no")).is_permission_denied());
    assert!(!Error::Timeout.is_permission_denied());

    assert!(Error::Disconnected.is_disconnected());
    for kind in [
        IoErrorKind::UnexpectedEof,
        IoErrorKind::BrokenPipe,
        IoErrorKind::NotConnected,
    ] {
        assert!(Error::Io(IoError::new(kind, "gone")).is_disconnected());
    }
    for kind in [IoErrorKind::NotFound, IoErrorKind::PermissionDenied, IoErrorKind::Other] {
        assert!(!Error::Io(IoError::new(kind, "here")).is_disconnected());
    }
    assert!(!Error::Timeout.is_disconnected());
    assert!(!Error::Protocol("x".to_string()).is_disconnected());
}

#[test]
fn io_error_has_a_custom_message() {
    match Error::io_error("Poll error on device") {
        Error::Io(e) => {
            assert_eq!(e.kind(), IoErrorKind::Other);
            assert_eq!(e.raw_os_error, None);
            assert_eq!(e.message, "Poll error on device");
            let copy = e.clone();
            assert_eq!(copy.message, e.message);
        }
        other => panic!("unexpected: {other:?}"),
    }
}

#[test]
fn error_from_an_os_code_keeps_the_code() {
    for code in [1, 2, 13, 32] {
        match Error::from(code) {
            Error::Io(e) => assert_eq!(e.raw_os_error, Some(code)),
            other => panic!("unexpected: {other:?}"),
        }
    }
    assert!(Error::from(13).is_permission_denied());
    assert!(Error::from(32).is_disconnected());
}

#[test]
fn errors_have_their_messages() {
    let text = |s: &str| s.to_string();
    assert_eq!(Error::io_error("boom").to_string(), "I/O error: boom");
    assert_eq!(Error::DeviceNotFound.to_string(), "HID device not found");
    assert_eq!(Error::InvalidPath(text("/x")).to_string(), "Invalid device path: /x");
    assert_eq!(Error::Timeout.to_string(), "Read timeout");
    assert_eq!(Error::InvalidData(text("bad")).to_string(), "Invalid data: bad");
    assert_eq!(Error::NotSupported(text("no")).to_string(), "Feature not supported: no");
    assert_eq!(Error::PermissionDenied.to_string(), "Permission denied accessing device");
    assert_eq!(Error::Disconnected.to_string(), "Device disconnected");
    assert_eq!(Error::Protocol(text("p")).to_string(), "Protocol error: p");
    assert_eq!(
        Error::BufferTooSmall { needed: 100, got: 50 }.to_string(),
        "Buffer too small: needed 100 bytes, got 50 bytes"
    );
    assert_eq!(Error::InvalidParameter(text("q")).to_string(), "Invalid parameter: q");
    assert_eq!(Error::SystemCall(text("s")).to_string(), "System call failed: s");
    assert_eq!(Error::Parse(text("t")).to_string(), "Parse error: t");
}

#[test]
fn numbers_are_rendered() {
    assert_eq!(usize_to_decimal(0), "0");
    assert_eq!(usize_to_decimal(7), "7");
    assert_eq!(usize_to_decimal(4097), "4097");
    assert_eq!(usize_to_decimal(usize::MAX), usize::MAX.to_string());
    assert_eq!(u128_to_decimal(u128::MAX), u128::MAX.to_string());
    assert_eq!(u16_to_hex4(0), "0000");
    assert_eq!(u16_to_hex4(0x1f), "001f");
    assert_eq!(u16_to_hex4(0xd13e), "d13e");
    assert_eq!(u16_to_hex4(0xffff), "ffff");
}

#[test]
fn numbers_are_parsed_as_the_standard_library_does() {
    for s in [
        "0", "7", "+7", "-7", "-0", "007", "2147483647", "2147483648", "-2147483648",
        "-2147483649", "", "+", "-", "--1", "+-1", " 1", "1 ", "1_0", "12a", "99999999999999999999",
        "\u{663}",
    ] {
        assert_eq!(parse_i32(s), s.parse::<i32>().ok(), "{s:?}");
    }
    for s in [
        "0", "ffff", "FFFF", "10000", "+a", "-a", "", "+", "0x10", "d13e", "D13E", "g", " 1",
        "0000000000000000001", "fffffffffffffffffffff", "1f ",
    ] {
        assert_eq!(parse_hex_u16(s), u16::from_str_radix(s, 16).ok(), "{s:?}");
    }
}

#[test]
fn trim_removes_unicode_whitespace() {
    for s in [
        "",
        " ",
        "abc",
        "  abc  ",
        "\t\n\u{b}\u{c}\r abc \u{85}\u{a0}",
        "\u{1680}\u{2000}\u{200a}a b\u{2028}\u{2029}\u{202f}\u{205f}\u{3000}",
        "\u{200b}abc\u{200b}",
        "\u{1f}abc\u{1c}",
        " \u{feff} ",
    ] {
        assert_eq!(trim(s), s.trim(), "{s:?}");
    }
}

#[test]
fn join_adjoins_as_paths_do() {
    for (base, part) in [
        ("/sys/class/hidraw", "hidraw0"),
        ("/", "idVendor"),
        ("/a/", "b"),
        ("", "b"),
        ("/a", ""),
        ("/a", "/b"),
        ("a", "b/c"),
    ] {
        let expected = std::path::Path::new(base).join(part);
        assert_eq!(join(base, part), expected.to_str().unwrap(), "{base:?} {part:?}");
    }
}

#[test]
fn display_name_without_product() {
    let info = DeviceInfo {
        path: "/dev/hidraw1".into(),
        vendor_id: 0x046d,
        product_id: 0x00ff,
        serial_number: None,
        manufacturer: None,
        product: None,
        interface_number: 1,
    };
    assert_eq!(info.display_name(), "HID Device 046d:00ff");
    let copy = info.clone();
    assert_eq!(copy.path, "/dev/hidraw1");
    assert_eq!(copy.interface_number, 1);
}

#[test]
fn reports_are_an_id_and_data() {
    let report = HidReport::new(3, ReportType::Feature, vec![1, 2, 3]);
    assert_eq!(report.report_id, 3);
    assert_eq!(report.report_type, ReportType::Feature);
    assert_eq!(report.to_bytes(), vec![3, 1, 2, 3]);
    assert_eq!(HidReport::input(1, vec![]).report_type, ReportType::Input);
    assert_eq!(HidReport::output(1, vec![]).report_type, ReportType::Output);
    assert_eq!(HidReport::feature(1, vec![]).report_type, ReportType::Feature);
    assert_eq!(HidReport::input(9, vec![]).to_bytes(), vec![9]);

    let parsed = HidReport::from_bytes(&[3, 1, 2, 3], ReportType::Input).unwrap();
    assert_eq!(parsed.report_id, 3);
    assert_eq!(parsed.report_type, ReportType::Input);
    assert_eq!(parsed.data, vec![1, 2, 3]);
    assert_eq!(parsed.clone().data, vec![1, 2, 3]);
    let bare = HidReport::from_bytes(&[8], ReportType::Output).unwrap();
    assert_eq!((bare.report_id, bare.data.len()), (8, 0));
    match HidReport::from_bytes(&[], ReportType::Input) {
        Err(Error::InvalidData(message)) => assert_eq!(message, "Empty report data"),
        other => panic!("unexpected: {other:?}"),
    }
}

#[test]
fn timeouts_are_seconds_and_nanoseconds() {
    assert_eq!(Timeout::from_secs(5), Timeout { secs: 5, nanos: 0 });
    assert_eq!(Timeout::from_millis(0), Timeout { secs: 0, nanos: 0 });
    assert_eq!(Timeout::from_millis(1), Timeout { secs: 0, nanos: 1_000_000 });
    assert_eq!(Timeout::from_millis(2999), Timeout { secs: 2, nanos: 999_000_000 });
}

fn coldcard(vendor_id: u16, product_id: u16) -> HidDevice {
    let raw = HidrawDevice::open("/dev/hidraw0")
        .stat(Ok(true))
        .unwrap()
        .opened(Ok(()))
        .unwrap()
        .sized(Ok(0))
        .unwrap();
    let info = DeviceInfo {
        path: "/dev/hidraw0".into(),
        vendor_id,
        product_id,
        serial_number: None,
        manufacturer: None,
        product: None,
        interface_number: 0,
    };
    HidDevice::open_path(raw, info)
}

#[test]
fn coldcard_is_told_by_its_ids() {
    let device = ColdcardDevice::open_path("/dev/hidraw0", coldcard(0xd13e, 0xcc10)).unwrap();
    assert_eq!(device.info().vendor_id, 0xd13e);
    assert_eq!(device.device().info().product_id, 0xcc10);
    match ColdcardDevice::open_path("/dev/hidraw0", coldcard(0x046d, 0x0c1)).map(|_| ()) {
        Err(Error::InvalidParameter(message)) => assert_eq!(
            message,
            "Device at /dev/hidraw0 is not a Coldcard (VID: 046d, PID: 00c1)"
        ),
        other => panic!("unexpected: {other:?}"),
    }
    assert!(ColdcardDevice::open_path("/x", coldcard(0xd13e, 0xcc11)).is_err());
    assert!(matches!(ColdcardDevice::open(), Enumeration::Ask(_, _)));
}

#[test]
fn coldcard_commands_begin_their_exchange() {
    let device = ColdcardDevice::new(coldcard(0xd13e, 0xcc10));
    let first = |step: Step| match step {
        Step::Write(packet) => packet,
        _ => panic!("a command begins with a write"),
    };
    let packet = first(device.ping(b"abc").unwrap().1);
    assert_eq!(&packet[..8], &[0x87, b'p', b'i', b'n', b'g', b'a', b'b', b'c']);
    assert_eq!(&first(device.get_version().1)[..5], &[0x84, b'v', b'e', b'r', b's']);
    assert_eq!(&first(device.get_status().1)[..5], &[0x84, b's', b't', b'a', b't']);
    assert_eq!(&first(device.reboot().1)[..5], &[0x84, b'r', b'e', b'b', b'o']);

    assert!(device.ping(&[0u8; 256]).is_ok());
    match device.ping(&[0u8; 257]).map(|_| ()) {
        Err(Error::InvalidParameter(message)) => {
            assert_eq!(message, "Ping message too long (max 256 bytes)")
        }
        other => panic!("unexpected: {other:?}"),
    }
}
