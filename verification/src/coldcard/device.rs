//! Coldcard device handle: the commands of the wallet.

use crate::coldcard::commands::{PING, REBOOT, STATUS, VERSION};
use crate::coldcard::constants::{COINKITE_VID, COLDCARD_PID};
use crate::coldcard::protocol::{start_spec, ColdcardProtocol, Step};
use crate::device::{DeviceInfo, DeviceInfoView, HidDevice, HidDeviceView};
use crate::error::{Error, ErrorView, Result};
use crate::hidraw::enumerate::{
    find_devices, start_spec as enumeration_start, Enumeration, EnumerationView, Selection,
};
use crate::hidraw::ioctl::string_view;
use crate::protocol::framing::bytes_outcome;
use crate::text::{hex4, string_from_utf8, u16_to_hex4};
use vstd::prelude::*;
use vstd::string::*;

verus! {

/// Longest message that a ping carries.
pub const MAX_PING_SIZE: usize = 256;

/// Coldcard device handle
pub struct ColdcardDevice {
    device: HidDevice,
}

impl View for ColdcardDevice {
    type V = HidDeviceView;

    closed spec fn view(&self) -> HidDeviceView {
        self.device@
    }
}

/// Whether an identity is that of a Coldcard.
pub open spec fn is_coldcard(info: DeviceInfoView) -> bool {
    info.vendor_id == COINKITE_VID && info.product_id == COLDCARD_PID
}

/// Text of the error for a device that is no Coldcard.
pub open spec fn not_coldcard_message(path: Seq<char>, info: DeviceInfoView) -> Seq<char> {
    "Device at "@ + path + " is not a Coldcard (VID: "@ + hex4(info.vendor_id) + ", PID: "@ + hex4(
        info.product_id,
    ) + ")"@
}

/// The version that a response holds: its bytes as UTF-8 text.
pub open spec fn version_spec(response: core::result::Result<Seq<u8>, ErrorView>)
    -> core::result::Result<Seq<char>, ErrorView> {
    match response {
        Err(e) => Err(e),
        Ok(bytes) => if vstd::utf8::valid_utf8(bytes) {
            Ok(vstd::utf8::decode_utf8(bytes))
        } else {
            Err(ErrorView::InvalidData("Invalid UTF-8 in version response"@))
        },
    }
}

impl ColdcardDevice {
    /// Open the first available Coldcard device: begins the search for
    /// devices of the Coldcard's vendor and product.
    pub fn open() -> (r: Enumeration)
        ensures
            r@ == enumeration_start(
                Selection::Matching { vendor_id: COINKITE_VID, product_id: COLDCARD_PID },
            ),
            r@ matches EnumerationView::Ask(next, _) ==> next.valid(),
    {
        find_devices(COINKITE_VID, COLDCARD_PID)
    }

    /// The handle of a device that was found as a Coldcard.
    pub fn new(device: HidDevice) -> (r: Self)
        ensures
            r@ == device@,
    {
        ColdcardDevice { device }
    }

    /// Open a specific Coldcard device: takes the device that was opened at
    /// `path` and verifies that it is a Coldcard.
    pub fn open_path(path: &str, device: HidDevice) -> (r: Result<Self>)
        ensures
            match r {
                Ok(coldcard) => is_coldcard(device@.info) && coldcard@ == device@,
                Err(e) => !is_coldcard(device@.info) && e@ == ErrorView::InvalidParameter(
                    not_coldcard_message(path@, device@.info),
                ),
            },
    {
        let info = device.info();
        if info.vendor_id != COINKITE_VID || info.product_id != COLDCARD_PID {
            let mut message = String::from_str("Device at ");
            message.append(path);
            message.append(" is not a Coldcard (VID: ");
            let vendor = u16_to_hex4(info.vendor_id);
            message.append(vendor.as_str());
            message.append(", PID: ");
            let product = u16_to_hex4(info.product_id);
            message.append(product.as_str());
            message.append(")");
            return Err(Error::InvalidParameter(message));
        }
        Ok(ColdcardDevice { device })
    }

    /// Get device info
    pub fn info(&self) -> (info: &DeviceInfo)
        ensures
            info@ == self@.info,
    {
        self.device.info()
    }

    /// The device that the commands go to.
    pub fn device(&self) -> (device: &HidDevice)
        ensures
            device@ == self@,
    {
        &self.device
    }

    /// Execute a ping command: begins the exchange, unless the message is
    /// longer than a ping may be.
    pub fn ping(&self, msg: &[u8]) -> (r: Result<(ColdcardProtocol, Step)>)
        ensures
            match r {
                Ok((protocol, step)) => msg@.len() <= MAX_PING_SIZE && protocol.state().valid()
                    && (protocol.state(), step@) == start_spec(PING@, Some(msg@)),
                Err(e) => msg@.len() > MAX_PING_SIZE && e@ == ErrorView::InvalidParameter(
                    "Ping message too long (max 256 bytes)"@,
                ),
            },
    {
        if msg.len() > MAX_PING_SIZE {
            return Err(
                Error::InvalidParameter(
                    String::from_str("Ping message too long (max 256 bytes)"),
                ),
            );
        }
        let command = PING;
        Ok(ColdcardProtocol::new().send_command(&command, Some(msg)))
    }

    /// Get Coldcard version information: begins the exchange.
    pub fn get_version(&self) -> (r: (ColdcardProtocol, Step))
        ensures
            r.0.state().valid(),
            (r.0.state(), r.1@) == start_spec(VERSION@, None),
    {
        let command = VERSION;
        ColdcardProtocol::new().send_command(&command, None)
    }

    /// The version in the response to the version command.
    pub fn read_version(response: Result<Vec<u8>>) -> (r: Result<String>)
        ensures
            string_view(r) == version_spec(bytes_outcome(response)),
    {
        match response {
            Err(e) => Err(e),
            Ok(bytes) => match string_from_utf8(bytes) {
                Some(text) => Ok(text),
                None => Err(
                    Error::InvalidData(String::from_str("Invalid UTF-8 in version response")),
                ),
            },
        }
    }

    /// Get Coldcard status: begins the exchange.
    pub fn get_status(&self) -> (r: (ColdcardProtocol, Step))
        ensures
            r.0.state().valid(),
            (r.0.state(), r.1@) == start_spec(STATUS@, None),
    {
        let command = STATUS;
        ColdcardProtocol::new().send_command(&command, None)
    }

    /// Reboot the Coldcard: begins the exchange.
    pub fn reboot(&self) -> (r: (ColdcardProtocol, Step))
        ensures
            r.0.state().valid(),
            (r.0.state(), r.1@) == start_spec(REBOOT@, None),
    {
        let command = REBOOT;
        ColdcardProtocol::new().send_command(&command, None)
    }
}

} // verus!
