//! System-level constants and structures for hidraw

use vstd::prelude::*;

verus! {

const IOC_NRSHIFT: u32 = 0;

const IOC_TYPESHIFT: u32 = 8;

const IOC_SIZESHIFT: u32 = 16;

const IOC_DIRSHIFT: u32 = 30;

const IOC_WRITE: u32 = 1;

const IOC_READ: u32 = 2;

/// The ioctl type of the hidraw driver: the letter `H`.
pub const HID_TYPE: u32 = 0x48;

/// An ioctl command number: direction in the top two bits, then fourteen
/// bits of argument size, eight of type and eight of number. Bits that a
/// field pushes beyond the word are lost.
pub open spec fn ioc_spec(dir: u32, type_: u32, nr: u32, size: u32) -> u32 {
    (dir << 30u32) | (type_ << 8u32) | (nr << 0u32) | (size << 16u32)
}

/// Generate ioctl command number
pub fn _ioc(dir: u32, type_: u32, nr: u32, size: u32) -> (r: u32)
    ensures
        r == ioc_spec(dir, type_, nr, size),
{
    (dir << IOC_DIRSHIFT) | (type_ << IOC_TYPESHIFT) | (nr << IOC_NRSHIFT) | (size
        << IOC_SIZESHIFT)
}

/// ioctl command for read operations
pub fn _ior(type_: u32, nr: u32, size: u32) -> (r: u32)
    ensures
        r == ioc_spec(2, type_, nr, size),
{
    _ioc(IOC_READ, type_, nr, size)
}

/// ioctl command for write operations
pub fn _iow(type_: u32, nr: u32, size: u32) -> (r: u32)
    ensures
        r == ioc_spec(1, type_, nr, size),
{
    _ioc(IOC_WRITE, type_, nr, size)
}

/// ioctl command for read/write operations
pub fn _iowr(type_: u32, nr: u32, size: u32) -> (r: u32)
    ensures
        r == ioc_spec(3, type_, nr, size),
{
    assert(IOC_READ | IOC_WRITE == 3u32) by (bit_vector);
    _ioc(IOC_READ | IOC_WRITE, type_, nr, size)
}

/// Get report descriptor size
pub const HIDIOCGRDESCSIZE: u32 = 0x80044801;

/// Get report descriptor
pub const HIDIOCGRDESC: u32 = 0x90004802;

/// Get raw device info
pub const HIDIOCGRAWINFO: u32 = 0x80084803;

/// Get raw device name
pub const HIDIOCGRAWNAME: u32 = 0x81004804;

/// Get raw physical info
pub const HIDIOCGRAWPHYS: u32 = 0x81004805;

/// Get raw unique ID
pub const HIDIOCGRAWUNIQ: u32 = 0x81004808;

/// The fixed opcodes are the read commands of the hidraw type with the
/// sizes of their arguments: a `u32`, the report descriptor with its size
/// field taken as 4096 bytes, the eight bytes of the device info, and 256
/// bytes for each string.
pub proof fn lemma_fixed_opcodes()
    ensures
        HIDIOCGRDESCSIZE == ioc_spec(2, HID_TYPE, 0x01, 4),
        HIDIOCGRDESC == ioc_spec(2, HID_TYPE, 0x02, 4096),
        HIDIOCGRAWINFO == ioc_spec(2, HID_TYPE, 0x03, 8),
        HIDIOCGRAWNAME == ioc_spec(2, HID_TYPE, 0x04, 256),
        HIDIOCGRAWPHYS == ioc_spec(2, HID_TYPE, 0x05, 256),
        HIDIOCGRAWUNIQ == ioc_spec(2, HID_TYPE, 0x08, 256),
{
    assert(0x80044801u32 == (2u32 << 30u32) | (0x48u32 << 8u32) | (0x01u32 << 0u32) | (4u32
        << 16u32)) by (bit_vector);
    assert(0x90004802u32 == (2u32 << 30u32) | (0x48u32 << 8u32) | (0x02u32 << 0u32) | (4096u32
        << 16u32)) by (bit_vector);
    assert(0x80084803u32 == (2u32 << 30u32) | (0x48u32 << 8u32) | (0x03u32 << 0u32) | (8u32
        << 16u32)) by (bit_vector);
    assert(0x81004804u32 == (2u32 << 30u32) | (0x48u32 << 8u32) | (0x04u32 << 0u32) | (256u32
        << 16u32)) by (bit_vector);
    assert(0x81004805u32 == (2u32 << 30u32) | (0x48u32 << 8u32) | (0x05u32 << 0u32) | (256u32
        << 16u32)) by (bit_vector);
    assert(0x81004808u32 == (2u32 << 30u32) | (0x48u32 << 8u32) | (0x08u32 << 0u32) | (256u32
        << 16u32)) by (bit_vector);
}

/// The opcode that gets a feature report into a buffer of `len` bytes.
pub open spec fn get_feature_opcode(len: usize) -> u32 {
    ioc_spec(3, HID_TYPE, 0x06, len as u32)
}

/// The opcode that sets a feature report from a buffer of `len` bytes.
pub open spec fn set_feature_opcode(len: usize) -> u32 {
    ioc_spec(3, HID_TYPE, 0x07, len as u32)
}

/// Get feature report
pub fn hidiocgfeature(len: usize) -> (r: u32)
    ensures
        r == get_feature_opcode(len),
{
    _iowr(HID_TYPE, 0x06, #[verifier::truncate] (len as u32))
}

/// Set feature report
pub fn hidiocsfeature(len: usize) -> (r: u32)
    ensures
        r == set_feature_opcode(len),
{
    _iowr(HID_TYPE, 0x07, #[verifier::truncate] (len as u32))
}

/// Raw device info structure
#[derive(Debug, Clone, Copy)]
pub struct HidrawDevInfo {
    pub bustype: u32,
    pub vendor: i16,
    pub product: i16,
}

/// Report descriptor structure
#[derive(Debug, Clone, Copy)]
pub struct HidrawReportDescriptor {
    pub size: u32,
    pub value: [u8; 4096],
}

} // verus!
