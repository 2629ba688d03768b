//! The decisions of the transport: checks before a call and the meaning of
//! its outcome.

use hidraw_rs::device::ReadPlan;
use hidraw_rs::hidraw::device::{Transfer, TransferKind, Wait};
use hidraw_rs::hidraw::ioctl::{
    get_raw_name, get_raw_phys, get_raw_uniq, ioctl_read_buf, ioctl_write_buf,
};
use hidraw_rs::hidraw::poll::{
    poll_outcome, poll_request, Direction, PollRequest, PollResult, POLL_ERR, POLL_HUP, POLL_IN,
    POLL_OUT,
};
use hidraw_rs::hidraw::sys::{
    hidiocgfeature, hidiocsfeature, HidrawDevInfo, HidrawReportDescriptor, _ioc, _ior, _iow,
    _iowr, HIDIOCGRAWINFO, HIDIOCGRAWNAME, HIDIOCGRAWPHYS, HIDIOCGRAWUNIQ, HIDIOCGRDESC,
    HIDIOCGRDESCSIZE, HID_TYPE,
};
use hidraw_rs::hidraw::HidrawDevice;
use hidraw_rs::timeout::Timeout;
use hidraw_rs::{DeviceInfo, Error, HidDevice, IoError, IoErrorKind, ReportDescriptor};

fn failure(kind: IoErrorKind) -> IoError {
    IoError::new(kind, "failed")
}

fn opened(path: &str, size: u32) -> HidrawDevice {
    HidrawDevice::open(path)
        .stat(Ok(true))
        .unwrap()
        .opened(Ok(()))
        .unwrap()
        .sized(Ok(size))
        .unwrap()
}

fn info(path: &str) -> DeviceInfo {
    DeviceInfo {
        path: path.to_string(),
        vendor_id: 0xd13e,
        product_id: 0xcc10,
        serial_number: None,
        manufacturer: None,
        product: None,
        interface_number: 0,
    }
}

fn read_kind() -> Transfer {
    opened("/dev/hidraw0", 0).read()
}

fn write_kind() -> Transfer {
    opened("/dev/hidraw0", 0).write(1).unwrap()
}

#[test]
fn open_goes_through_its_three_steps() {
    let pending = HidrawDevice::open("/dev/hidraw0");
    assert_eq!(pending.path(), "/dev/hidraw0");
    let pending = pending.stat(Ok(true)).unwrap();
    assert_eq!(pending.path(), "/dev/hidraw0");
    let device = pending.opened(Ok(())).unwrap().sized(Ok(34)).unwrap();
    assert_eq!(device.path(), "/dev/hidraw0");
    assert_eq!(device.report_size(), 34);
}

#[test]
fn open_classifies_the_metadata() {
    let stat = |outcome| HidrawDevice::open("/dev/x").stat(outcome).map(|_| ());
    assert!(matches!(
        stat(Err(failure(IoErrorKind::NotFound))),
        Err(Error::DeviceNotFound)
    ));
    assert!(matches!(
        stat(Err(failure(IoErrorKind::PermissionDenied))),
        Err(Error::PermissionDenied)
    ));
    assert!(matches!(
        stat(Err(failure(IoErrorKind::Other))),
        Err(Error::Io(_))
    ));
    match stat(Ok(false)) {
        Err(Error::InvalidPath(message)) => {
            assert_eq!(message, "/dev/x is not a character device")
        }
        other => panic!("unexpected: {other:?}"),
    }
}

#[test]
fn open_classifies_the_open_and_the_size() {
    let open = |outcome| {
        HidrawDevice::open("/dev/x")
            .stat(Ok(true))
            .unwrap()
            .opened(outcome)
            .map(|_| ())
    };
    assert!(matches!(
        open(Err(failure(IoErrorKind::PermissionDenied))),
        Err(Error::PermissionDenied)
    ));
    match open(Err(failure(IoErrorKind::NotFound))) {
        Err(Error::Io(e)) => assert_eq!(e.kind, IoErrorKind::NotFound),
        other => panic!("unexpected: {other:?}"),
    }
    let sized = HidrawDevice::open("/dev/x")
        .stat(Ok(true))
        .unwrap()
        .opened(Ok(()))
        .unwrap()
        .sized(Err(failure(IoErrorKind::PermissionDenied)));
    assert!(matches!(sized.map(|_| ()), Err(Error::Io(_))));
}

#[test]
fn write_is_checked_before_the_call() {
    let device = opened("/dev/hidraw0", 0);
    match device.write(0).map(|t| t.kind()) {
        Err(Error::InvalidParameter(message)) => assert_eq!(message, "Cannot write empty data"),
        other => panic!("unexpected: {other:?}"),
    }
    match device.write(4097).map(|t| t.kind()) {
        Err(Error::InvalidParameter(message)) => {
            assert_eq!(message, "Data too large: 4097 bytes (max 4096)")
        }
        other => panic!("unexpected: {other:?}"),
    }
    assert_eq!(device.write(1).unwrap().kind(), TransferKind::Write);
    assert_eq!(device.write(4096).unwrap().kind(), TransferKind::Write);
    assert_eq!(device.read().kind(), TransferKind::Read);
}

#[test]
fn read_outcome_is_classified() {
    assert_eq!(read_kind().finish(Ok(64)).unwrap(), 64);
    assert_eq!(read_kind().finish(Ok(1)).unwrap(), 1);
    // A read of no bytes is the end of the stream.
    assert!(matches!(read_kind().finish(Ok(0)), Err(Error::Disconnected)));
    assert!(matches!(
        read_kind().finish(Err(failure(IoErrorKind::UnexpectedEof))),
        Err(Error::Disconnected)
    ));
    for kind in [
        IoErrorKind::BrokenPipe,
        IoErrorKind::NotConnected,
        IoErrorKind::PermissionDenied,
        IoErrorKind::NotFound,
        IoErrorKind::Other,
    ] {
        match read_kind().finish(Err(failure(kind))) {
            Err(Error::Io(e)) => assert_eq!(e.kind, kind),
            other => panic!("unexpected: {other:?}"),
        }
    }
}

#[test]
fn write_outcome_is_classified() {
    assert_eq!(write_kind().finish(Ok(64)).unwrap(), 64);
    assert_eq!(write_kind().finish(Ok(0)).unwrap(), 0);
    assert!(matches!(
        write_kind().finish(Err(failure(IoErrorKind::BrokenPipe))),
        Err(Error::Disconnected)
    ));
    assert!(matches!(
        write_kind().finish(Err(failure(IoErrorKind::NotConnected))),
        Err(Error::Disconnected)
    ));
    assert!(matches!(
        write_kind().finish(Err(failure(IoErrorKind::PermissionDenied))),
        Err(Error::PermissionDenied)
    ));
    for kind in [IoErrorKind::UnexpectedEof, IoErrorKind::NotFound, IoErrorKind::Other] {
        match write_kind().finish(Err(failure(kind))) {
            Err(Error::Io(e)) => assert_eq!(e.kind, kind),
            other => panic!("unexpected: {other:?}"),
        }
    }
}

#[test]
fn poll_request_names_the_direction_and_the_deadline() {
    assert_eq!(
        poll_request(Direction::In, Timeout { secs: 5, nanos: 250 }),
        PollRequest { events: 1, tv_sec: 5, tv_nsec: 250 }
    );
    assert_eq!(
        poll_request(Direction::Out, Timeout::from_millis(1500)),
        PollRequest { events: 4, tv_sec: 1, tv_nsec: 500_000_000 }
    );
    assert_eq!(poll_request(Direction::In, Timeout { secs: u64::MAX, nanos: 0 }).tv_sec, -1);
    assert_eq!((POLL_IN, POLL_OUT, POLL_ERR, POLL_HUP), (1, 4, 8, 16));
}

#[test]
fn poll_outcome_is_classified() {
    let polled = |ready, revents| poll_outcome(Ok(PollResult { ready, revents }));
    assert!(polled(1, POLL_IN).is_ok());
    assert!(polled(1, POLL_OUT).is_ok());
    assert!(polled(1, 0).is_ok());
    assert!(matches!(polled(0, 0), Err(Error::Timeout)));
    assert!(matches!(polled(0, POLL_ERR | POLL_HUP), Err(Error::Timeout)));
    match polled(1, POLL_IN | POLL_ERR) {
        Err(Error::Io(e)) => {
            assert_eq!(e.kind, IoErrorKind::Other);
            assert_eq!(e.message, "Poll error on device");
        }
        other => panic!("unexpected: {other:?}"),
    }
    assert!(matches!(polled(1, POLL_ERR | POLL_HUP), Err(Error::Io(_))));
    assert!(matches!(polled(1, POLL_IN | POLL_HUP), Err(Error::Disconnected)));
    assert!(matches!(polled(1, POLL_HUP), Err(Error::Disconnected)));
    match poll_outcome(Err(failure(IoErrorKind::PermissionDenied))) {
        Err(Error::Io(e)) => assert_eq!(e.kind, IoErrorKind::PermissionDenied),
        other => panic!("unexpected: {other:?}"),
    }
}

#[test]
fn timed_read_waits_before_it_reads() {
    let timeout = Timeout::from_secs(1);
    match Wait::for_read(0, timeout).map(|w| w.request()) {
        Err(Error::InvalidParameter(message)) => assert_eq!(message, "Buffer cannot be empty"),
        other => panic!("unexpected: {other:?}"),
    }
    let wait = Wait::for_read(64, timeout).unwrap();
    assert_eq!(wait.request(), PollRequest { events: 1, tv_sec: 1, tv_nsec: 0 });
    let transfer = wait.ready(Ok(PollResult { ready: 1, revents: POLL_IN })).unwrap();
    assert_eq!(transfer.kind(), TransferKind::Read);

    let wait = Wait::for_read(64, timeout).unwrap();
    assert!(matches!(
        wait.ready(Ok(PollResult { ready: 0, revents: 0 })).map(|t| t.kind()),
        Err(Error::Timeout)
    ));
    let wait = Wait::for_read(64, timeout).unwrap();
    assert!(matches!(
        wait.ready(Ok(PollResult { ready: 1, revents: POLL_HUP })).map(|t| t.kind()),
        Err(Error::Disconnected)
    ));
}

#[test]
fn timed_write_checks_the_data_before_the_wait() {
    let timeout = Timeout::from_millis(20);
    let ready = Ok(PollResult { ready: 1, revents: POLL_OUT });
    let wait = Wait::for_write(3, timeout).unwrap();
    assert_eq!(wait.request().events, POLL_OUT);
    assert_eq!(wait.ready(ready).unwrap().kind(), TransferKind::Write);
    assert!(Wait::for_write(4096, timeout).is_ok());

    // No bytes to write, or too many: refused before anything is waited for.
    match Wait::for_write(0, timeout).map(|w| w.request()) {
        Err(Error::InvalidParameter(message)) => assert_eq!(message, "Cannot write empty data"),
        other => panic!("unexpected: {other:?}"),
    }
    match Wait::for_write(4097, timeout).map(|w| w.request()) {
        Err(Error::InvalidParameter(message)) => {
            assert_eq!(message, "Data too large: 4097 bytes (max 4096)")
        }
        other => panic!("unexpected: {other:?}"),
    }

    let wait = Wait::for_write(3, timeout).unwrap();
    assert!(matches!(
        wait.ready(Ok(PollResult { ready: 0, revents: 0 })).map(|t| t.kind()),
        Err(Error::Timeout)
    ));
}

#[test]
fn device_reads_by_its_deadline() {
    let mut device = HidDevice::open(&info("/dev/hidraw0"), opened("/dev/hidraw0", 12));
    assert_eq!(device.info().path, "/dev/hidraw0");
    assert_eq!(device.raw().report_size(), 12);
    assert!(matches!(device.read(0), Ok(ReadPlan::Transfer(_))));
    assert!(matches!(device.read(64), Ok(ReadPlan::Transfer(_))));

    device.set_read_timeout(Some(Timeout::from_secs(2)));
    match device.read(64) {
        Ok(ReadPlan::Wait(wait)) => {
            assert_eq!(wait.request(), PollRequest { events: 1, tv_sec: 2, tv_nsec: 0 })
        }
        _ => panic!("a read under a deadline must wait"),
    }
    assert!(matches!(device.read(0), Err(Error::InvalidParameter(_))));

    device.set_read_timeout(None);
    assert!(matches!(device.read(64), Ok(ReadPlan::Transfer(_))));
    assert!(device.read_timeout(64, Timeout::from_secs(1)).is_ok());
    assert!(device.write(0).is_err());
    assert_eq!(device.write_timeout(1, Timeout::from_secs(1)).unwrap().request().events, 4);
    assert!(matches!(
        device.write_timeout(0, Timeout::from_secs(1)).map(|w| w.request()),
        Err(Error::InvalidParameter(_))
    ));
}

#[test]
fn open_first_takes_the_first_device() {
    let found = vec![info("/dev/hidraw3"), info("/dev/hidraw1")];
    assert_eq!(HidDevice::open_first(found).unwrap().path, "/dev/hidraw3");
    assert!(matches!(HidDevice::open_first(vec![]), Err(Error::DeviceNotFound)));
}

#[test]
fn feature_reports_carry_the_report_id() {
    let device = opened("/dev/hidraw0", 0);
    let mut buf = [0xAAu8; 8];
    let opcode = device.get_feature_report(7, &mut buf).unwrap();
    assert_eq!(buf, [7, 0xAA, 0xAA, 0xAA, 0xAA, 0xAA, 0xAA, 0xAA]);
    assert_eq!(opcode, 0xC008_4806);
    let mut empty: [u8; 0] = [];
    match device.get_feature_report(7, &mut empty) {
        Err(Error::InvalidParameter(message)) => assert_eq!(message, "Buffer cannot be empty"),
        other => panic!("unexpected: {other:?}"),
    }
    assert_eq!(device.send_feature_report(8).unwrap(), 0xC008_4807);
    match device.send_feature_report(0) {
        Err(Error::InvalidParameter(message)) => assert_eq!(message, "Data cannot be empty"),
        other => panic!("unexpected: {other:?}"),
    }
}

#[test]
fn opcodes_have_their_fields() {
    assert_eq!(_ioc(2, 0x48, 1, 4), 0x8004_4801);
    assert_eq!(_ior(HID_TYPE, 0x02, 4096), 0x9000_4802);
    assert_eq!(_iow(HID_TYPE, 0x02, 4), 0x4004_4802);
    assert_eq!(_iowr(HID_TYPE, 0x06, 64), 0xC040_4806);
    assert_eq!(hidiocgfeature(64), 0xC040_4806);
    assert_eq!(hidiocsfeature(64), 0xC040_4807);
    assert_eq!(hidiocsfeature(0x1_0000), 0xC000_4807);
    assert_eq!(HIDIOCGRDESCSIZE, _ior(HID_TYPE, 0x01, 4));
    assert_eq!(HIDIOCGRDESC, _ior(HID_TYPE, 0x02, 4096));
    assert_eq!(HIDIOCGRAWINFO, _ior(HID_TYPE, 0x03, 8));
    assert_eq!(HIDIOCGRAWNAME, _ior(HID_TYPE, 0x04, 256));
    assert_eq!(HIDIOCGRAWPHYS, _ior(HID_TYPE, 0x05, 256));
    assert_eq!(HIDIOCGRAWUNIQ, _ior(HID_TYPE, 0x08, 256));
    let raw = HidrawDevInfo { bustype: 3, vendor: -11970, product: -13296 };
    assert_eq!(raw.vendor as u16, 0xd13e);
    assert_eq!(raw.product as u16, 0xcc10);
}

#[test]
fn control_call_results_are_counts_or_failures() {
    assert_eq!(ioctl_read_buf(12, failure(IoErrorKind::Other)).unwrap(), 12);
    assert_eq!(ioctl_write_buf(0, failure(IoErrorKind::Other)).unwrap(), 0);
    match ioctl_read_buf(-1, failure(IoErrorKind::BrokenPipe)) {
        Err(Error::Io(e)) => assert_eq!(e.kind, IoErrorKind::BrokenPipe),
        other => panic!("unexpected: {other:?}"),
    }
    assert!(matches!(
        ioctl_write_buf(-1, failure(IoErrorKind::Other)),
        Err(Error::Io(_))
    ));
}

fn string_buffer(bytes: &[u8]) -> [u8; 256] {
    let mut buf = [0u8; 256];
    buf[..bytes.len()].copy_from_slice(bytes);
    buf
}

#[test]
fn raw_strings_end_at_the_first_zero() {
    let mut buf = string_buffer(b"Coldcard Wallet");
    buf[20] = b'x';
    assert_eq!(get_raw_name(Ok(buf)).unwrap(), "Coldcard Wallet");
    assert_eq!(get_raw_phys(Ok(string_buffer(b""))).unwrap(), "");
    assert_eq!(
        get_raw_uniq(Ok(string_buffer("s\u{e9}rie".as_bytes()))).unwrap(),
        "s\u{e9}rie"
    );
    assert_eq!(get_raw_name(Ok([b'a'; 256])).unwrap(), "a".repeat(256));
}

#[test]
fn raw_strings_must_be_utf8() {
    let bad = string_buffer(&[b'a', 0xff, b'b']);
    match get_raw_name(Ok(bad)) {
        Err(Error::Parse(message)) => assert_eq!(message, "Invalid UTF-8 in device name"),
        other => panic!("unexpected: {other:?}"),
    }
    match get_raw_phys(Ok(bad)) {
        Err(Error::Parse(message)) => assert_eq!(message, "Invalid UTF-8 in physical info"),
        other => panic!("unexpected: {other:?}"),
    }
    match get_raw_uniq(Ok(bad)) {
        Err(Error::Parse(message)) => assert_eq!(message, "Invalid UTF-8 in unique ID"),
        other => panic!("unexpected: {other:?}"),
    }
    assert!(matches!(
        get_raw_name(Err(failure(IoErrorKind::Other))),
        Err(Error::Io(_))
    ));
    let device = HidDevice::open_path(opened("/dev/hidraw0", 0), info("/dev/hidraw0"));
    assert_eq!(
        device.get_physical_info(Ok(string_buffer(b"usb-0000:00:14.0-1/input0"))).unwrap(),
        "usb-0000:00:14.0-1/input0"
    );
    assert_eq!(device.get_unique_id(Ok(string_buffer(b"id"))).unwrap(), "id");
}

#[test]
fn report_descriptor_keeps_its_valid_bytes() {
    let mut value = [0u8; 4096];
    value[..3].copy_from_slice(&[5, 1, 9]);
    let raw = HidrawReportDescriptor { size: 3, value };
    let descriptor = ReportDescriptor::from_raw(&raw);
    assert_eq!(descriptor.size, 3);
    assert_eq!(descriptor.data.len(), 4096);
    assert_eq!(descriptor.as_bytes(), &[5, 1, 9]);
    assert!(!descriptor.is_empty());

    let short = ReportDescriptor { size: 10, data: vec![1, 2] };
    assert_eq!(short.as_bytes(), &[1, 2]);
    let empty = ReportDescriptor { size: 0, data: vec![1, 2] };
    assert!(empty.is_empty());
    assert_eq!(empty.as_bytes(), &[] as &[u8]);

    let device = HidDevice::open_path(opened("/dev/hidraw0", 0), info("/dev/hidraw0"));
    assert_eq!(device.get_report_descriptor(Ok(raw)).unwrap().as_bytes(), &[5, 1, 9]);
    assert!(matches!(
        device.get_report_descriptor(Err(failure(IoErrorKind::Other))),
        Err(Error::Io(_))
    ));
}
