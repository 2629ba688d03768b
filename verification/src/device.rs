//! High-level HID device interface

use crate::error::{Error, ErrorView, IoError, Result};
use crate::hidraw::device::{
    write_check_spec, HidrawDevice, HidrawDeviceView, Transfer, TransferKind, Wait, WaitView,
};
use crate::hidraw::ioctl::{buffer_view, get_raw_phys, get_raw_uniq, raw_string_spec, string_view};
use crate::hidraw::poll::{poll_request_spec, Direction};
use crate::hidraw::sys::{get_feature_opcode, set_feature_opcode, HidrawReportDescriptor};
use crate::text::{hex4, u16_to_hex4};
use crate::timeout::Timeout;
use vstd::prelude::*;
use vstd::slice::slice_subrange;
use vstd::string::*;

verus! {

/// Information about a HID device
#[derive(Debug)]
pub struct DeviceInfo {
    /// Device path (e.g., /dev/hidraw0)
    pub path: String,
    /// USB vendor ID
    pub vendor_id: u16,
    /// USB product ID
    pub product_id: u16,
    /// Serial number (if available)
    pub serial_number: Option<String>,
    /// Manufacturer name (if available)
    pub manufacturer: Option<String>,
    /// Product name (if available)
    pub product: Option<String>,
    /// Interface number
    pub interface_number: i32,
}

/// Mathematical value of a [`DeviceInfo`].
pub struct DeviceInfoView {
    pub path: Seq<char>,
    pub vendor_id: u16,
    pub product_id: u16,
    pub serial_number: Option<Seq<char>>,
    pub manufacturer: Option<Seq<char>>,
    pub product: Option<Seq<char>>,
    pub interface_number: i32,
}

/// The text of an optional string.
pub open spec fn text_of(s: Option<String>) -> Option<Seq<char>> {
    match s {
        Some(t) => Some(t@),
        None => None,
    }
}

impl View for DeviceInfo {
    type V = DeviceInfoView;

    open spec fn view(&self) -> DeviceInfoView {
        DeviceInfoView {
            path: self.path@,
            vendor_id: self.vendor_id,
            product_id: self.product_id,
            serial_number: text_of(self.serial_number),
            manufacturer: text_of(self.manufacturer),
            product: text_of(self.product),
            interface_number: self.interface_number,
        }
    }
}

impl DeviceInfoView {
    /// Whether the identity has the given vendor and product IDs.
    pub open spec fn matches(self, vendor_id: u16, product_id: u16) -> bool {
        self.vendor_id == vendor_id && self.product_id == product_id
    }

    /// The display name: the product name where there is one, and the IDs
    /// as four hexadecimal digits each.
    pub open spec fn display_name(self) -> Seq<char> {
        match self.product {
            Some(product) => product + " ("@ + hex4(self.vendor_id) + ":"@ + hex4(self.product_id)
                + ")"@,
            None => "HID Device "@ + hex4(self.vendor_id) + ":"@ + hex4(self.product_id),
        }
    }
}

/// A copy of an optional string.
pub fn clone_text(s: &Option<String>) -> (r: Option<String>)
    ensures
        r == *s,
{
    match s {
        Some(t) => Some(t.clone()),
        None => None,
    }
}

impl Clone for DeviceInfo {
    fn clone(&self) -> (r: Self)
        ensures
            r == *self,
    {
        DeviceInfo {
            path: self.path.clone(),
            vendor_id: self.vendor_id,
            product_id: self.product_id,
            serial_number: clone_text(&self.serial_number),
            manufacturer: clone_text(&self.manufacturer),
            product: clone_text(&self.product),
            interface_number: self.interface_number,
        }
    }
}

impl DeviceInfo {
    /// Check if this device matches the given vendor and product IDs
    pub fn matches(&self, vendor_id: u16, product_id: u16) -> (b: bool)
        ensures
            b == self@.matches(vendor_id, product_id),
    {
        self.vendor_id == vendor_id && self.product_id == product_id
    }

    /// Get a display name for the device
    pub fn display_name(&self) -> (name: String)
        ensures
            name@ == self@.display_name(),
    {
        let vendor = u16_to_hex4(self.vendor_id);
        let product_id = u16_to_hex4(self.product_id);
        match &self.product {
            Some(product) => {
                let mut name = product.clone();
                name.append(" (");
                name.append(vendor.as_str());
                name.append(":");
                name.append(product_id.as_str());
                name.append(")");
                name
            },
            None => {
                let mut name = String::from_str("HID Device ");
                name.append(vendor.as_str());
                name.append(":");
                name.append(product_id.as_str());
                name
            },
        }
    }
}

/// HID Report Descriptor
///
/// Contains the binary report descriptor data that defines the format
/// of HID reports for this device.
#[derive(Debug)]
pub struct ReportDescriptor {
    /// Size of the descriptor in bytes
    pub size: usize,
    /// Raw descriptor data
    pub data: Vec<u8>,
}

impl ReportDescriptor {
    /// The valid descriptor bytes: the first `size` bytes of the data, or
    /// all of it where it is shorter.
    pub open spec fn valid_bytes(self) -> Seq<u8> {
        if self.size <= self.data@.len() {
            self.data@.take(self.size as int)
        } else {
            self.data@
        }
    }

    /// Get a slice of the valid descriptor data
    pub fn as_bytes(&self) -> (bytes: &[u8])
        ensures
            bytes@ == self.valid_bytes(),
    {
        let len = self.data.len();
        let end = if self.size <= len {
            self.size
        } else {
            len
        };
        let bytes = slice_subrange(self.data.as_slice(), 0, end);
        assert(bytes@ =~= self.valid_bytes());
        bytes
    }

    /// Check if the descriptor is empty
    pub fn is_empty(&self) -> (b: bool)
        ensures
            b == (self.size == 0),
    {
        self.size == 0
    }
}

impl Clone for ReportDescriptor {
    fn clone(&self) -> (r: Self)
        ensures
            r.size == self.size,
            r.data@ == self.data@,
    {
        let data = self.data.clone();
        assert(data@ =~= self.data@);
        ReportDescriptor { size: self.size, data }
    }
}

impl ReportDescriptor {
    /// The descriptor that the driver returned: its size field and all the
    /// bytes of its buffer.
    pub fn from_raw(raw: &HidrawReportDescriptor) -> (r: Self)
        ensures
            r.size == raw.size as usize,
            r.data@ == raw.value@,
    {
        let mut data: Vec<u8> = Vec::new();
        let mut i: usize = 0;
        while i < 4096
            invariant
                i <= 4096,
                raw.value@.len() == 4096,
                data@ == raw.value@.take(i as int),
            decreases 4096 - i,
        {
            data.push(raw.value[i]);
            i = i + 1;
            assert(data@ =~= raw.value@.take(i as int));
        }
        assert(raw.value@.take(4096) =~= raw.value@);
        ReportDescriptor { size: raw.size as usize, data }
    }
}

/// High-level HID device interface: the open device, its identity, and the
/// deadline that its reads go by.
pub struct HidDevice {
    raw: HidrawDevice,
    info: DeviceInfo,
    read_timeout: Option<Timeout>,
}

/// Mathematical value of a [`HidDevice`].
pub struct HidDeviceView {
    pub raw: HidrawDeviceView,
    pub info: DeviceInfoView,
    pub read_timeout: Option<Timeout>,
}

impl View for HidDevice {
    type V = HidDeviceView;

    closed spec fn view(&self) -> HidDeviceView {
        HidDeviceView { raw: self.raw@, info: self.info@, read_timeout: self.read_timeout }
    }
}

/// How a read goes on: after a wait for readiness, or at once.
pub enum ReadPlan {
    Wait(Wait),
    Transfer(Transfer),
}

impl HidDevice {
    /// Open a HID device from DeviceInfo, with the handle that was opened
    /// at its path. No deadline is set.
    pub fn open(info: &DeviceInfo, raw: HidrawDevice) -> (device: Self)
        ensures
            device@ == (HidDeviceView { raw: raw@, info: info@, read_timeout: None }),
    {
        HidDevice { raw, info: info.clone(), read_timeout: None }
    }

    /// Open a HID device by path, with the handle that was opened at the
    /// path and the identity that was resolved for it. No deadline is set.
    pub fn open_path(raw: HidrawDevice, info: DeviceInfo) -> (device: Self)
        ensures
            device@ == (HidDeviceView { raw: raw@, info: info@, read_timeout: None }),
    {
        HidDevice { raw, info, read_timeout: None }
    }

    /// Open the first device matching vendor and product ID: picks the
    /// first of the devices that were found, or reports that there is none.
    pub fn open_first(found: Vec<DeviceInfo>) -> (r: Result<DeviceInfo>)
        ensures
            match r {
                Ok(info) => found@.len() > 0 && info@ == found@[0]@,
                Err(e) => found@.len() == 0 && e@ == ErrorView::DeviceNotFound,
            },
    {
        if found.len() == 0 {
            Err(Error::DeviceNotFound)
        } else {
            Ok(found[0].clone())
        }
    }

    /// Get device information
    pub fn info(&self) -> (info: &DeviceInfo)
        ensures
            info@ == self@.info,
    {
        &self.info
    }

    /// The open handle.
    pub fn raw(&self) -> (raw: &HidrawDevice)
        ensures
            raw@ == self@.raw,
    {
        &self.raw
    }

    /// Set read timeout
    pub fn set_read_timeout(&mut self, timeout: Option<Timeout>)
        ensures
            final(self)@ == (HidDeviceView { read_timeout: timeout, ..old(self)@ }),
    {
        self.read_timeout = timeout;
    }

    /// Read data from the device into a buffer of `len` bytes: under the
    /// deadline that is set, or at once where none is.
    pub fn read(&self, len: usize) -> (r: Result<ReadPlan>)
        ensures
            match self@.read_timeout {
                Some(timeout) => match r {
                    Ok(ReadPlan::Wait(wait)) => len > 0 && wait@ == (WaitView {
                        direction: Direction::In,
                        len,
                        request: poll_request_spec(Direction::In, timeout),
                    }),
                    Ok(ReadPlan::Transfer(_)) => false,
                    Err(e) => len == 0 && e@ == ErrorView::InvalidParameter(
                        "Buffer cannot be empty"@,
                    ),
                },
                None => r matches Ok(ReadPlan::Transfer(t)) && t@ == TransferKind::Read,
            },
    {
        match self.read_timeout {
            Some(timeout) => match Wait::for_read(len, timeout) {
                Ok(wait) => Ok(ReadPlan::Wait(wait)),
                Err(e) => Err(e),
            },
            None => Ok(ReadPlan::Transfer(self.raw.read())),
        }
    }

    /// Read with explicit timeout
    pub fn read_timeout(&self, len: usize, timeout: Timeout) -> (r: Result<Wait>)
        ensures
            match r {
                Ok(wait) => len > 0 && wait@ == (WaitView {
                    direction: Direction::In,
                    len,
                    request: poll_request_spec(Direction::In, timeout),
                }),
                Err(e) => len == 0 && e@ == ErrorView::InvalidParameter(
                    "Buffer cannot be empty"@,
                ),
            },
    {
        Wait::for_read(len, timeout)
    }

    /// Write data to the device
    pub fn write(&self, len: usize) -> (r: Result<Transfer>)
        ensures
            match r {
                Ok(t) => t@ == TransferKind::Write && write_check_spec(len) is Ok,
                Err(e) => write_check_spec(len) == Err::<(), ErrorView>(e@),
            },
    {
        self.raw.write(len)
    }

    /// Write with explicit timeout: the data is checked before anything is
    /// waited for.
    pub fn write_timeout(&self, len: usize, timeout: Timeout) -> (r: Result<Wait>)
        ensures
            match r {
                Ok(wait) => write_check_spec(len) is Ok && wait@ == (WaitView {
                    direction: Direction::Out,
                    len,
                    request: poll_request_spec(Direction::Out, timeout),
                }),
                Err(e) => write_check_spec(len) == Err::<(), ErrorView>(e@),
            },
    {
        Wait::for_write(len, timeout)
    }

    /// Get a feature report
    pub fn get_feature_report(&self, report_id: u8, buf: &mut [u8]) -> (r: Result<u32>)
        ensures
            match r {
                Ok(opcode) => old(buf)@.len() > 0 && final(buf)@ == old(buf)@.update(
                    0,
                    report_id,
                ) && opcode == get_feature_opcode(old(buf)@.len() as usize),
                Err(e) => old(buf)@.len() == 0 && final(buf)@ == old(buf)@ && e@
                    == ErrorView::InvalidParameter("Buffer cannot be empty"@),
            },
    {
        self.raw.get_feature_report(report_id, buf)
    }

    /// Send a feature report
    pub fn send_feature_report(&self, len: usize) -> (r: Result<u32>)
        ensures
            match r {
                Ok(opcode) => len > 0 && opcode == set_feature_opcode(len),
                Err(e) => len == 0 && e@ == ErrorView::InvalidParameter("Data cannot be empty"@),
            },
    {
        self.raw.send_feature_report(len)
    }

    /// Get the physical location of the device (e.g., its place on the USB bus) from
    /// what the driver returned.
    pub fn get_physical_info(&self, outcome: core::result::Result<[u8; 256], IoError>) -> (r:
        Result<String>)
        ensures
            string_view(r) == raw_string_spec(buffer_view(outcome), "physical info"@),
    {
        get_raw_phys(outcome)
    }

    /// Get the unique ID of the device from what the driver returned.
    pub fn get_unique_id(&self, outcome: core::result::Result<[u8; 256], IoError>) -> (r: Result<
        String,
    >)
        ensures
            string_view(r) == raw_string_spec(buffer_view(outcome), "unique ID"@),
    {
        get_raw_uniq(outcome)
    }

    /// Get the HID report descriptor from what the driver returned.
    pub fn get_report_descriptor(
        &self,
        outcome: core::result::Result<HidrawReportDescriptor, IoError>,
    ) -> (r: Result<ReportDescriptor>)
        ensures
            match r {
                Ok(descriptor) => outcome is Ok && descriptor.size == outcome->Ok_0.size as usize
                    && descriptor.data@ == outcome->Ok_0.value@,
                Err(e) => outcome is Err && e@ == ErrorView::Io(outcome->Err_0@),
            },
    {
        match outcome {
            Ok(raw) => Ok(ReportDescriptor::from_raw(&raw)),
            Err(e) => Err(Error::Io(e)),
        }
    }
}

} // verus!
