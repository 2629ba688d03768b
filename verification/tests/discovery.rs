//! Discovery against a filesystem that the test makes up.

use hidraw_rs::hidraw::enumerate::{get_device_info, Enumeration, Enumerator, Selection};
use hidraw_rs::hidraw::interface::get_interface_number;
use hidraw_rs::hidraw::resolve::{read_hex_attr, read_string_attr, Resolution, Resolver};
use hidraw_rs::hidraw::sysfs::{SysfsAnswer, SysfsQuery};
use hidraw_rs::{enumerate, find_devices, DeviceInfo, Error, IoError, IoErrorKind, Result};
use std::collections::{HashMap, HashSet};

#[derive(Default)]
struct Tree {
    exists: HashSet<String>,
    canonical: HashMap<String, String>,
    text: HashMap<String, String>,
    entries: HashMap<String, Vec<String>>,
    asked: std::cell::RefCell<Vec<String>>,
}

fn missing() -> IoError {
    IoError {
        kind: IoErrorKind::NotFound,
        raw_os_error: Some(2),
        message: "No such file or directory (os error 2)".to_string(),
    }
}

impl Tree {
    fn answer(&self, query: &SysfsQuery) -> SysfsAnswer {
        self.asked.borrow_mut().push(format!("{query:?}"));
        match query {
            SysfsQuery::Exists(p) => SysfsAnswer::Exists(self.exists.contains(p)),
            SysfsQuery::Canonicalize(p) => {
                SysfsAnswer::Canonical(self.canonical.get(p).cloned().ok_or_else(missing))
            }
            SysfsQuery::ReadToString(p) => {
                SysfsAnswer::Text(self.text.get(p).cloned().ok_or_else(missing))
            }
            SysfsQuery::ReadDir(p) => {
                SysfsAnswer::Entries(self.entries.get(p).cloned().ok_or_else(missing))
            }
        }
    }

    fn resolve(&self, node: &str) -> Result<DeviceInfo> {
        let mut resolution = get_device_info(node);
        loop {
            match resolution {
                Resolution::Done(result) => return result,
                Resolution::Ask(resolver, query) => {
                    let answer = self.answer(&query);
                    assert!(answer.fits(&query));
                    resolution = resolver.answer(answer);
                }
            }
        }
    }

    fn run(&self, mut enumeration: Enumeration) -> Result<Vec<DeviceInfo>> {
        loop {
            match enumeration {
                Enumeration::Done(result) => return result,
                Enumeration::Ask(enumerator, query) => {
                    let answer = self.answer(&query);
                    assert!(answer.fits(&query));
                    enumeration = enumerator.answer(answer);
                }
            }
        }
    }

    /// A device node `name` whose USB device directory lies `depth` levels
    /// above the target of its device link.
    fn add_device(&mut self, name: &str, vid: &str, pid: &str, depth: usize) {
        self.exists.insert("/sys/class/hidraw".to_string());
        self.exists.insert(format!("/dev/{name}"));
        self.exists.insert(format!("/sys/class/hidraw/{name}"));
        let usb = format!("/sys/devices/usb-{name}");
        let mut target = usb.clone();
        for level in 0..depth {
            target.push_str(&format!("/l{level}"));
        }
        self.canonical
            .insert(format!("/sys/class/hidraw/{name}/device"), target);
        self.exists.insert(format!("{usb}/idVendor"));
        self.text.insert(format!("{usb}/idVendor"), format!("{vid}\n"));
        self.text.insert(format!("{usb}/idProduct"), format!("{pid}\n"));
    }

    fn list(&mut self, names: &[&str]) {
        self.exists.insert("/sys/class/hidraw".to_string());
        self.entries.insert(
            "/sys/class/hidraw".to_string(),
            names.iter().map(|n| n.to_string()).collect(),
        );
    }
}

#[test]
fn resolve_reads_the_identity() {
    let mut tree = Tree::default();
    tree.add_device("hidraw0", "d13e", "cc10", 2);
    let usb = "/sys/devices/usb-hidraw0";
    tree.text.insert(format!("{usb}/manufacturer"), " Coinkite \n".to_string());
    tree.text.insert(format!("{usb}/product"), "Coldcard Wallet\n".to_string());
    tree.text.insert(format!("{usb}/serial"), "\t0123456789AB\n".to_string());

    let info = tree.resolve("/dev/hidraw0").unwrap();
    assert_eq!(info.path, "/dev/hidraw0");
    assert_eq!(info.vendor_id, 0xd13e);
    assert_eq!(info.product_id, 0xcc10);
    assert_eq!(info.manufacturer.as_deref(), Some("Coinkite"));
    assert_eq!(info.product.as_deref(), Some("Coldcard Wallet"));
    assert_eq!(info.serial_number.as_deref(), Some("0123456789AB"));
    assert_eq!(info.interface_number, 0);
}

#[test]
fn resolve_asks_in_order() {
    let mut tree = Tree::default();
    tree.add_device("hidraw3", "1234", "5678", 1);
    tree.resolve("/dev/hidraw3").unwrap();
    let asked = tree.asked.borrow().clone();
    assert_eq!(
        asked,
        vec![
            "Exists(\"/sys/class/hidraw/hidraw3\")",
            "Canonicalize(\"/sys/class/hidraw/hidraw3/device\")",
            "Exists(\"/sys/devices/usb-hidraw3/l0/idVendor\")",
            "Exists(\"/sys/devices/usb-hidraw3/idVendor\")",
            "ReadToString(\"/sys/devices/usb-hidraw3/idVendor\")",
            "ReadToString(\"/sys/devices/usb-hidraw3/idProduct\")",
            "ReadToString(\"/sys/devices/usb-hidraw3/manufacturer\")",
            "ReadToString(\"/sys/devices/usb-hidraw3/product\")",
            "ReadToString(\"/sys/devices/usb-hidraw3/serial\")",
        ]
    );
}

#[test]
fn resolve_without_strings_leaves_them_empty() {
    let mut tree = Tree::default();
    tree.add_device("hidraw1", "046D", "c52b", 0);
    let info = tree.resolve("/dev/hidraw1").unwrap();
    assert_eq!(info.vendor_id, 0x046d);
    assert_eq!(info.product_id, 0xc52b);
    assert_eq!(info.manufacturer, None);
    assert_eq!(info.product, None);
    assert_eq!(info.serial_number, None);
}

#[test]
fn resolve_rejects_a_path_without_name() {
    let tree = Tree::default();
    match tree.resolve("/") {
        Err(Error::InvalidPath(message)) => assert_eq!(message, "Invalid device path"),
        other => panic!("unexpected: {other:?}"),
    }
    assert!(tree.asked.borrow().is_empty());
}

#[test]
fn resolve_rejects_a_node_without_class_entry() {
    let tree = Tree::default();
    match tree.resolve("/dev/hidraw9") {
        Err(Error::Parse(message)) => {
            assert_eq!(message, "sysfs path /sys/class/hidraw/hidraw9 does not exist")
        }
        other => panic!("unexpected: {other:?}"),
    }
}

#[test]
fn resolve_takes_the_interface_from_the_resolved_path() {
    let mut tree = Tree::default();
    tree.exists.insert("/sys/class/hidraw/hidraw0".to_string());
    tree.canonical.insert(
        "/sys/class/hidraw/hidraw0/device".to_string(),
        "/sys/devices/platform/usb1/1-1/1-1.4/1-1.4:1.2/0003:046D:C52B.0001".to_string(),
    );
    let usb = "/sys/devices/platform/usb1/1-1/1-1.4";
    tree.exists.insert(format!("{usb}/idVendor"));
    tree.text.insert(format!("{usb}/idVendor"), "046d\n".to_string());
    tree.text.insert(format!("{usb}/idProduct"), "c52b\n".to_string());
    let info = tree.resolve("/dev/hidraw0").unwrap();
    assert_eq!(info.interface_number, 2);
    assert_eq!(info.vendor_id, 0x046d);

    // A resolved path without such a segment gives 0 and still resolves.
    let mut plain = Tree::default();
    plain.add_device("hidraw1", "046d", "c52b", 2);
    assert_eq!(plain.resolve("/dev/hidraw1").unwrap().interface_number, 0);
}

#[test]
fn resolve_reports_a_link_that_does_not_resolve() {
    let mut tree = Tree::default();
    tree.exists.insert("/sys/class/hidraw/hidraw0".to_string());
    match tree.resolve("/dev/hidraw0") {
        Err(Error::Parse(message)) => assert_eq!(
            message,
            "Failed to canonicalize path: No such file or directory (os error 2)"
        ),
        other => panic!("unexpected: {other:?}"),
    }
}

#[test]
fn resolve_without_vendor_id_fails_after_ten_levels() {
    let mut tree = Tree::default();
    tree.exists.insert("/sys/class/hidraw/hidraw0".to_string());
    tree.canonical.insert(
        "/sys/class/hidraw/hidraw0/device".to_string(),
        "/a/b/c/d/e/f/g/h/i/j/k/l/m".to_string(),
    );
    match tree.resolve("/dev/hidraw0") {
        Err(Error::Parse(message)) => assert_eq!(message, "Could not find USB device in sysfs"),
        other => panic!("unexpected: {other:?}"),
    }
    let asked = tree.asked.borrow().clone();
    let probes: Vec<&String> = asked.iter().filter(|q| q.contains("idVendor")).collect();
    assert_eq!(probes.len(), 10);
    assert_eq!(probes[0], "Exists(\"/a/b/c/d/e/f/g/h/i/j/k/l/m/idVendor\")");
    assert_eq!(probes[9], "Exists(\"/a/b/c/d/idVendor\")");
}

#[test]
fn resolve_finds_vendor_id_at_the_tenth_level_but_not_beyond() {
    let mut near = Tree::default();
    near.add_device("hidraw0", "0001", "0002", 9);
    assert!(near.resolve("/dev/hidraw0").is_ok());

    let mut far = Tree::default();
    far.add_device("hidraw0", "0001", "0002", 10);
    assert!(matches!(far.resolve("/dev/hidraw0"), Err(Error::Parse(_))));
}

#[test]
fn resolve_stops_at_the_root() {
    let mut tree = Tree::default();
    tree.exists.insert("/sys/class/hidraw/hidraw0".to_string());
    tree.canonical
        .insert("/sys/class/hidraw/hidraw0/device".to_string(), "/sys/x".to_string());
    match tree.resolve("/dev/hidraw0") {
        Err(Error::Parse(message)) => assert_eq!(message, "Could not find USB device in sysfs"),
        other => panic!("unexpected: {other:?}"),
    }
    let asked = tree.asked.borrow().clone();
    assert_eq!(
        asked[2..],
        [
            "Exists(\"/sys/x/idVendor\")".to_string(),
            "Exists(\"/sys/idVendor\")".to_string(),
            "Exists(\"/idVendor\")".to_string(),
        ]
    );
}

#[test]
fn resolve_requires_readable_hex_ids() {
    let mut tree = Tree::default();
    tree.add_device("hidraw0", "xyz", "0002", 0);
    match tree.resolve("/dev/hidraw0") {
        Err(Error::Parse(message)) => assert_eq!(message, "Invalid hex value: xyz"),
        other => panic!("unexpected: {other:?}"),
    }

    let mut tree = Tree::default();
    tree.add_device("hidraw0", "0001", "0002", 0);
    tree.text.remove("/sys/devices/usb-hidraw0/idProduct");
    match tree.resolve("/dev/hidraw0") {
        Err(Error::Parse(message)) => {
            assert_eq!(message, "Could not read /sys/devices/usb-hidraw0/idProduct")
        }
        other => panic!("unexpected: {other:?}"),
    }
}

#[test]
fn begin_named_takes_the_name_it_is_given() {
    match Resolver::begin_named("/dev/whatever", Some("hidraw7".to_string())) {
        Resolution::Ask(_, SysfsQuery::Exists(path)) => {
            assert_eq!(path, "/sys/class/hidraw/hidraw7")
        }
        _ => panic!("unexpected"),
    }
    assert!(matches!(
        Resolver::begin_named("/dev/whatever", None),
        Resolution::Done(Err(Error::InvalidPath(_)))
    ));
}

#[test]
fn walk_up_takes_the_parent_it_is_given() {
    let mut tree = Tree::default();
    tree.exists.insert("/sys/class/hidraw/hidraw0".to_string());
    tree.canonical
        .insert("/sys/class/hidraw/hidraw0/device".to_string(), "/p/q".to_string());
    let mut resolution = Resolver::begin("/dev/hidraw0");
    for _ in 0..2 {
        resolution = match resolution {
            Resolution::Ask(resolver, query) => resolver.answer(tree.answer(&query)),
            done => done,
        };
    }
    let Resolution::Ask(resolver, _) = resolution else {
        panic!("the walk did not begin")
    };
    match resolver.walk_up(Some("/elsewhere".to_string())) {
        Resolution::Ask(_, SysfsQuery::Exists(path)) => assert_eq!(path, "/elsewhere/idVendor"),
        _ => panic!("unexpected"),
    }
}

#[test]
fn enumerate_lists_what_resolves() {
    let mut tree = Tree::default();
    tree.add_device("hidraw0", "d13e", "cc10", 1);
    tree.add_device("hidraw1", "046d", "c52b", 3);
    tree.add_device("hidraw4", "d13e", "cc10", 0);
    // hidraw2 has a node but no usable sysfs entry; hidraw3 has no node.
    tree.exists.insert("/dev/hidraw2".to_string());
    tree.exists.insert("/sys/class/hidraw/hidraw2".to_string());
    tree.list(&["hidraw0", "hidraw2", "hidraw1", "hidraw3", "hidraw4"]);

    let all = tree.run(enumerate()).unwrap();
    let paths: Vec<&str> = all.iter().map(|d| d.path.as_str()).collect();
    assert_eq!(paths, vec!["/dev/hidraw0", "/dev/hidraw1", "/dev/hidraw4"]);

    let found = tree.run(find_devices(0xd13e, 0xcc10)).unwrap();
    let paths: Vec<&str> = found.iter().map(|d| d.path.as_str()).collect();
    assert_eq!(paths, vec!["/dev/hidraw0", "/dev/hidraw4"]);
    assert!(found.iter().all(|d| d.matches(0xd13e, 0xcc10)));

    let none = tree.run(find_devices(0xd13e, 0x0000)).unwrap();
    assert!(none.is_empty());
}

#[test]
fn find_is_enumerate_filtered() {
    let mut tree = Tree::default();
    tree.add_device("hidraw0", "0001", "0002", 0);
    tree.add_device("hidraw1", "0003", "0004", 0);
    tree.add_device("hidraw2", "0001", "0002", 0);
    tree.list(&["hidraw2", "hidraw1", "hidraw0"]);
    let all = tree.run(enumerate()).unwrap();
    let expected: Vec<String> = all
        .iter()
        .filter(|d| d.vendor_id == 1 && d.product_id == 2)
        .map(|d| d.path.clone())
        .collect();
    let found = tree.run(Enumerator::start(Selection::Matching {
        vendor_id: 1,
        product_id: 2,
    }))
    .unwrap();
    let paths: Vec<String> = found.iter().map(|d| d.path.clone()).collect();
    assert_eq!(paths, expected);
    assert_eq!(paths, vec!["/dev/hidraw2", "/dev/hidraw0"]);
}

#[test]
fn enumerate_without_class_directory_is_not_supported() {
    let tree = Tree::default();
    match tree.run(enumerate()) {
        Err(Error::NotSupported(message)) => {
            assert_eq!(message, "hidraw not available on this system")
        }
        other => panic!("unexpected: {other:?}"),
    }
}

#[test]
fn enumerate_reports_a_directory_that_cannot_be_listed() {
    let mut tree = Tree::default();
    tree.exists.insert("/sys/class/hidraw".to_string());
    match tree.run(enumerate()) {
        Err(Error::Io(e)) => assert_eq!(e.kind, IoErrorKind::NotFound),
        other => panic!("unexpected: {other:?}"),
    }
}

#[test]
fn enumerate_of_an_empty_directory_is_empty() {
    let mut tree = Tree::default();
    tree.list(&[]);
    assert!(tree.run(enumerate()).unwrap().is_empty());
}

#[test]
fn interface_number_is_the_number_after_the_dot() {
    assert_eq!(
        get_interface_number("/sys/devices/usb1/1-1/1-1.4:1.2/0003:046D:C52B.0001").unwrap(),
        2
    );
    assert_eq!(get_interface_number("1-1:1.0").unwrap(), 0);
    assert_eq!(get_interface_number("a/b:3.7/c:4.9").unwrap(), 7);
    assert_eq!(get_interface_number("x:+1.-5").unwrap(), -5);
}

#[test]
fn interface_number_needs_a_segment_of_the_form() {
    for path in [
        "",
        "/sys/class/hidraw/hidraw0/device",
        "1-1.4",
        "a:b.0",
        "a:1.",
        "a:.1",
        "a:1/0.2",
        "a:1.2x",
        "a:1.99999999999",
    ] {
        match get_interface_number(path) {
            Err(Error::Parse(message)) => {
                assert_eq!(message, "Could not determine interface number", "{path}")
            }
            other => panic!("unexpected for {path}: {other:?}"),
        }
    }
}

#[test]
fn interface_number_skips_segments_that_do_not_parse() {
    assert_eq!(get_interface_number("pci0000:00/usb:x.1/1-1:1.3").unwrap(), 3);
}

#[test]
fn hex_attribute_is_trimmed_and_parsed() {
    assert_eq!(read_hex_attr("p", Ok("d13e\n".to_string())).unwrap(), 0xd13e);
    assert_eq!(read_hex_attr("p", Ok("  FFFF  ".to_string())).unwrap(), 0xffff);
    assert_eq!(read_hex_attr("p", Ok("+1f".to_string())).unwrap(), 0x1f);
    assert_eq!(read_hex_attr("p", Ok("0000000001".to_string())).unwrap(), 1);
    for bad in ["", "  ", "10000", "-1", "+", "12 34", "0x12", "g"] {
        match read_hex_attr("p", Ok(bad.to_string())) {
            Err(Error::Parse(message)) => {
                assert_eq!(message, format!("Invalid hex value: {}", bad.trim()))
            }
            other => panic!("unexpected for {bad:?}: {other:?}"),
        }
    }
    match read_hex_attr("/some/file", Err(missing())) {
        Err(Error::Parse(message)) => assert_eq!(message, "Could not read /some/file"),
        other => panic!("unexpected: {other:?}"),
    }
}

#[test]
fn string_attribute_is_trimmed() {
    assert_eq!(read_string_attr(Ok(" \u{a0}Nano S\r\n".to_string())).unwrap(), "Nano S");
    assert_eq!(read_string_attr(Ok("\n".to_string())).unwrap(), "");
    match read_string_attr(Err(missing())) {
        Err(Error::Io(e)) => assert_eq!(e.raw_os_error, Some(2)),
        other => panic!("unexpected: {other:?}"),
    }
}
