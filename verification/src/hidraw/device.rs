//! Low-level hidraw device operations: what is checked before a call to
//! the driver, and what its outcome means.

use crate::error::{Error, ErrorView, IoError, IoErrorKind, IoErrorView, Result};
use crate::hidraw::poll::{
    poll_outcome, poll_outcome_spec, poll_request, poll_request_spec, poll_view, Direction,
    PollRequest, PollResult,
};
use crate::hidraw::sys::{get_feature_opcode, hidiocgfeature, hidiocsfeature, set_feature_opcode};
use crate::text::{decimal, usize_to_decimal};
use crate::timeout::Timeout;
use vstd::prelude::*;
use vstd::string::*;

verus! {

/// Largest number of bytes that one write may carry.
pub const MAX_WRITE_SIZE: usize = 4096;

/// The outcome of a step that gives a count, over mathematical values.
pub open spec fn count_view(r: Result<usize>) -> core::result::Result<usize, ErrorView> {
    match r {
        Ok(n) => Ok(n),
        Err(e) => Err(e@),
    }
}

/// The outcome of a system call that gives a count, over mathematical
/// values.
pub open spec fn io_count_view(r: core::result::Result<usize, IoError>) -> core::result::Result<
    usize,
    IoErrorView,
> {
    match r {
        Ok(n) => Ok(n),
        Err(e) => Err(e@),
    }
}

/// Low-level hidraw device handle: what is known of an open device.
pub struct HidrawDevice {
    path: String,
    report_size: usize,
}

/// Mathematical value of a [`HidrawDevice`].
pub struct HidrawDeviceView {
    pub path: Seq<char>,
    pub report_size: usize,
}

impl View for HidrawDevice {
    type V = HidrawDeviceView;

    closed spec fn view(&self) -> HidrawDeviceView {
        HidrawDeviceView { path: self.path@, report_size: self.report_size }
    }
}

/// An open that waits for the metadata of the path.
pub struct PendingStat {
    path: String,
}

/// An open that waits for the device file to be opened for reading and
/// writing.
pub struct PendingOpen {
    path: String,
}

/// An open that waits for the size of the report descriptor.
pub struct PendingSize {
    path: String,
}

impl View for PendingStat {
    type V = Seq<char>;

    closed spec fn view(&self) -> Seq<char> {
        self.path@
    }
}

impl View for PendingOpen {
    type V = Seq<char>;

    closed spec fn view(&self) -> Seq<char> {
        self.path@
    }
}

impl View for PendingSize {
    type V = Seq<char>;

    closed spec fn view(&self) -> Seq<char> {
        self.path@
    }
}

/// What the metadata of the path means: a path that is not there is no
/// device, one that may not be looked at is denied, and any other failure
/// is an I/O failure; a path that is no character device is invalid.
pub open spec fn stat_spec(path: Seq<char>, outcome: core::result::Result<bool, IoErrorView>)
    -> core::result::Result<(), ErrorView> {
    match outcome {
        Err(e) => if e.kind == IoErrorKind::NotFound {
            Err(ErrorView::DeviceNotFound)
        } else if e.kind == IoErrorKind::PermissionDenied {
            Err(ErrorView::PermissionDenied)
        } else {
            Err(ErrorView::Io(e))
        },
        Ok(is_char_device) => if is_char_device {
            Ok(())
        } else {
            Err(ErrorView::InvalidPath(path + " is not a character device"@))
        },
    }
}

/// What opening the device file means: missing rights are reported as
/// such, any other failure as an I/O failure.
pub open spec fn opened_spec(outcome: core::result::Result<(), IoErrorView>)
    -> core::result::Result<(), ErrorView> {
    match outcome {
        Err(e) => if e.kind == IoErrorKind::PermissionDenied {
            Err(ErrorView::PermissionDenied)
        } else {
            Err(ErrorView::Io(e))
        },
        Ok(_) => Ok(()),
    }
}

impl PendingStat {
    /// The path whose metadata is asked for.
    pub fn path(&self) -> (p: &str)
        ensures
            p@ == self@,
    {
        self.path.as_str()
    }

    /// Takes the metadata of the path: whether it is a character device,
    /// or why that could not be told.
    pub fn stat(self, outcome: core::result::Result<bool, IoError>) -> (r: Result<PendingOpen>)
        ensures
            match r {
                Ok(next) => next@ == self@ && stat_spec(
                    self@,
                    match outcome {
                        Ok(b) => Ok(b),
                        Err(e) => Err(e@),
                    },
                ) is Ok,
                Err(e) => stat_spec(
                    self@,
                    match outcome {
                        Ok(b) => Ok(b),
                        Err(e) => Err(e@),
                    },
                ) == Err::<(), ErrorView>(e@),
            },
    {
        match outcome {
            Err(e) => {
                if e.kind == IoErrorKind::NotFound {
                    Err(Error::DeviceNotFound)
                } else if e.kind == IoErrorKind::PermissionDenied {
                    Err(Error::PermissionDenied)
                } else {
                    Err(Error::Io(e))
                }
            },
            Ok(is_char_device) => {
                if is_char_device {
                    Ok(PendingOpen { path: self.path })
                } else {
                    let mut message = self.path;
                    message.append(" is not a character device");
                    Err(Error::InvalidPath(message))
                }
            },
        }
    }
}

impl PendingOpen {
    /// The path to open for reading and writing.
    pub fn path(&self) -> (p: &str)
        ensures
            p@ == self@,
    {
        self.path.as_str()
    }

    /// Takes the outcome of opening the device file.
    pub fn opened(self, outcome: core::result::Result<(), IoError>) -> (r: Result<PendingSize>)
        ensures
            match r {
                Ok(next) => next@ == self@ && outcome is Ok,
                Err(e) => outcome is Err && opened_spec(Err(outcome->Err_0@)) == Err::<
                    (),
                    ErrorView,
                >(e@),
            },
    {
        match outcome {
            Err(e) => {
                if e.kind == IoErrorKind::PermissionDenied {
                    Err(Error::PermissionDenied)
                } else {
                    Err(Error::Io(e))
                }
            },
            Ok(_) => Ok(PendingSize { path: self.path }),
        }
    }
}

impl PendingSize {
    /// Takes the size of the report descriptor, which completes the open.
    pub fn sized(self, outcome: core::result::Result<u32, IoError>) -> (r: Result<HidrawDevice>)
        ensures
            match r {
                Ok(device) => outcome is Ok && device@ == (HidrawDeviceView {
                    path: self@,
                    report_size: outcome->Ok_0 as usize,
                }),
                Err(e) => outcome is Err && e@ == ErrorView::Io(outcome->Err_0@),
            },
    {
        match outcome {
            Err(e) => Err(Error::Io(e)),
            Ok(size) => Ok(HidrawDevice { path: self.path, report_size: size as usize }),
        }
    }
}

/// The kind of a transfer.
#[derive(Debug, Clone, Copy, PartialEq, Eq, Structural)]
pub enum TransferKind {
    Read,
    Write,
}

/// Leave to perform one call on the device. It is handed out once the
/// checks before the call have passed, and takes the outcome of the call.
pub struct Transfer {
    kind: TransferKind,
}

impl View for Transfer {
    type V = TransferKind;

    closed spec fn view(&self) -> TransferKind {
        self.kind
    }
}

/// Text of the error for a write that is too large.
pub open spec fn write_too_large_message(len: nat) -> Seq<char> {
    "Data too large: "@ + decimal(len) + " bytes (max 4096)"@
}

/// The check before a write: no bytes and more than the largest write are
/// refused.
pub open spec fn write_check_spec(len: usize) -> core::result::Result<(), ErrorView> {
    if len == 0 {
        Err(ErrorView::InvalidParameter("Cannot write empty data"@))
    } else if len > MAX_WRITE_SIZE {
        Err(ErrorView::InvalidParameter(write_too_large_message(len as nat)))
    } else {
        Ok(())
    }
}

/// What the outcome of a call means. A read that returns no bytes has met
/// the end of the stream: with it, a read that fails at end of stream and
/// a write on a broken pipe or to a peer that is not connected mean that
/// the device is gone; a write without rights is denied; any other failure
/// is an I/O failure.
pub open spec fn finish_spec(kind: TransferKind, outcome: core::result::Result<usize, IoErrorView>)
    -> core::result::Result<usize, ErrorView> {
    match outcome {
        Ok(n) => if kind == TransferKind::Read && n == 0 {
            Err(ErrorView::Disconnected)
        } else {
            Ok(n)
        },
        Err(e) => match kind {
            TransferKind::Read => if e.kind == IoErrorKind::UnexpectedEof {
                Err(ErrorView::Disconnected)
            } else {
                Err(ErrorView::Io(e))
            },
            TransferKind::Write => if e.kind == IoErrorKind::BrokenPipe || e.kind
                == IoErrorKind::NotConnected {
                Err(ErrorView::Disconnected)
            } else if e.kind == IoErrorKind::PermissionDenied {
                Err(ErrorView::PermissionDenied)
            } else {
                Err(ErrorView::Io(e))
            },
        },
    }
}

impl Transfer {
    /// The kind of the transfer.
    pub fn kind(&self) -> (k: TransferKind)
        ensures
            k == self@,
    {
        self.kind
    }

    /// Takes the outcome of the call and gives the count of bytes.
    pub fn finish(self, outcome: core::result::Result<usize, IoError>) -> (r: Result<usize>)
        ensures
            count_view(r) == finish_spec(self@, io_count_view(outcome)),
    {
        match outcome {
            Ok(n) => {
                if self.kind == TransferKind::Read && n == 0 {
                    Err(Error::Disconnected)
                } else {
                    Ok(n)
                }
            },
            Err(e) => match self.kind {
                TransferKind::Read => {
                    if e.kind == IoErrorKind::UnexpectedEof {
                        Err(Error::Disconnected)
                    } else {
                        Err(Error::Io(e))
                    }
                },
                TransferKind::Write => {
                    if e.kind == IoErrorKind::BrokenPipe || e.kind == IoErrorKind::NotConnected {
                        Err(Error::Disconnected)
                    } else if e.kind == IoErrorKind::PermissionDenied {
                        Err(Error::PermissionDenied)
                    } else {
                        Err(Error::Io(e))
                    }
                },
            },
        }
    }
}

/// The check before a write.
fn check_write(len: usize) -> (r: Result<Transfer>)
    ensures
        match r {
            Ok(t) => t@ == TransferKind::Write && write_check_spec(len) is Ok,
            Err(e) => write_check_spec(len) == Err::<(), ErrorView>(e@),
        },
{
    if len == 0 {
        return Err(Error::InvalidParameter(String::from_str("Cannot write empty data")));
    }
    if len > MAX_WRITE_SIZE {
        let mut message = String::from_str("Data too large: ");
        let size = usize_to_decimal(len);
        message.append(size.as_str());
        message.append(" bytes (max 4096)");
        return Err(Error::InvalidParameter(message));
    }
    Ok(Transfer { kind: TransferKind::Write })
}

impl HidrawDevice {
    /// Open a hidraw device by path: begins with the metadata of the path.
    pub fn open(path: &str) -> (pending: PendingStat)
        ensures
            pending@ == path@,
    {
        PendingStat { path: String::from_str(path) }
    }

    /// Get the device path
    pub fn path(&self) -> (p: &str)
        ensures
            p@ == self@.path,
    {
        self.path.as_str()
    }

    /// Get the report descriptor size
    pub fn report_size(&self) -> (n: usize)
        ensures
            n == self@.report_size,
    {
        self.report_size
    }

    /// Read a HID report (blocking): nothing is checked before the call.
    pub fn read(&self) -> (t: Transfer)
        ensures
            t@ == TransferKind::Read,
    {
        Transfer { kind: TransferKind::Read }
    }

    /// Write a HID report of `len` bytes, if that many may be written.
    pub fn write(&self, len: usize) -> (r: Result<Transfer>)
        ensures
            match r {
                Ok(t) => t@ == TransferKind::Write && write_check_spec(len) is Ok,
                Err(e) => write_check_spec(len) == Err::<(), ErrorView>(e@),
            },
    {
        check_write(len)
    }

    /// Get a feature report: puts the report id into the first byte of the
    /// buffer and gives the opcode of the control call. An empty buffer is
    /// refused.
    pub fn get_feature_report(&self, report_id: u8, buf: &mut [u8]) -> (r: Result<u32>)
        ensures
            match r {
                Ok(opcode) => old(buf)@.len() > 0 && final(buf)@ == old(buf)@.update(
                    0,
                    report_id,
                ) && opcode == get_feature_opcode(old(buf)@.len() as usize),
                Err(e) => old(buf)@.len() == 0 && final(buf)@ == old(buf)@ && e@
                    == ErrorView::InvalidParameter("Buffer cannot be empty"@),
            },
    {
        if buf.len() == 0 {
            return Err(Error::InvalidParameter(String::from_str("Buffer cannot be empty")));
        }
        buf[0] = report_id;
        Ok(hidiocgfeature(buf.len()))
    }

    /// Send a feature report of `len` bytes: gives the opcode of the
    /// control call. No bytes are refused.
    pub fn send_feature_report(&self, len: usize) -> (r: Result<u32>)
        ensures
            match r {
                Ok(opcode) => len > 0 && opcode == set_feature_opcode(len),
                Err(e) => len == 0 && e@ == ErrorView::InvalidParameter("Data cannot be empty"@),
            },
    {
        if len == 0 {
            return Err(Error::InvalidParameter(String::from_str("Data cannot be empty")));
        }
        Ok(hidiocsfeature(len))
    }
}

/// A transfer that first waits for the handle to become ready.
pub struct Wait {
    direction: Direction,
    len: usize,
    request: PollRequest,
}

/// Mathematical value of a [`Wait`].
pub struct WaitView {
    pub direction: Direction,
    pub len: usize,
    pub request: PollRequest,
}

impl View for Wait {
    type V = WaitView;

    closed spec fn view(&self) -> WaitView {
        WaitView { direction: self.direction, len: self.len, request: self.request }
    }
}

/// What follows a wait: a wait that did not end in readiness fails as the
/// wait did; a ready handle is read from or written to.
pub open spec fn ready_spec(
    wait: WaitView,
    outcome: core::result::Result<PollResult, IoErrorView>,
) -> core::result::Result<TransferKind, ErrorView> {
    match poll_outcome_spec(outcome) {
        Err(e) => Err(e),
        Ok(_) => match wait.direction {
            Direction::In => Ok(TransferKind::Read),
            Direction::Out => Ok(TransferKind::Write),
        },
    }
}

impl Wait {
    /// A read into a buffer of `len` bytes under a deadline. An empty
    /// buffer is refused before anything is waited for.
    pub fn for_read(len: usize, timeout: Timeout) -> (r: Result<Wait>)
        ensures
            match r {
                Ok(wait) => len > 0 && wait@ == (WaitView {
                    direction: Direction::In,
                    len,
                    request: poll_request_spec(Direction::In, timeout),
                }),
                Err(e) => len == 0 && e@ == ErrorView::InvalidParameter(
                    "Buffer cannot be empty"@,
                ),
            },
    {
        if len == 0 {
            return Err(Error::InvalidParameter(String::from_str("Buffer cannot be empty")));
        }
        Ok(Wait { direction: Direction::In, len, request: poll_request(Direction::In, timeout) })
    }

    /// A write of `len` bytes under a deadline. No bytes and more than the
    /// largest write are refused before anything is waited for.
    pub fn for_write(len: usize, timeout: Timeout) -> (r: Result<Wait>)
        ensures
            match r {
                Ok(wait) => write_check_spec(len) is Ok && wait@ == (WaitView {
                    direction: Direction::Out,
                    len,
                    request: poll_request_spec(Direction::Out, timeout),
                }),
                Err(e) => write_check_spec(len) == Err::<(), ErrorView>(e@),
            },
    {
        match check_write(len) {
            Err(e) => Err(e),
            Ok(_) => Ok(
                Wait {
                    direction: Direction::Out,
                    len,
                    request: poll_request(Direction::Out, timeout),
                },
            ),
        }
    }

    /// What to hand to `poll`.
    pub fn request(&self) -> (request: PollRequest)
        ensures
            request == self@.request,
    {
        self.request
    }

    /// Takes what the wait came to.
    pub fn ready(self, outcome: core::result::Result<PollResult, IoError>) -> (r: Result<Transfer>)
        ensures
            match r {
                Ok(t) => ready_spec(self@, poll_view(outcome)) == Ok::<TransferKind, ErrorView>(
                    t@,
                ),
                Err(e) => ready_spec(self@, poll_view(outcome)) == Err::<
                    TransferKind,
                    ErrorView,
                >(e@),
            },
    {
        match poll_outcome(outcome) {
            Err(e) => Err(e),
            Ok(_) => match self.direction {
                Direction::In => Ok(Transfer { kind: TransferKind::Read }),
                Direction::Out => Ok(Transfer { kind: TransferKind::Write }),
            },
        }
    }
}

/// No bytes are ever read or written after a wait that timed out: a wait
/// that found no handle ready gives a timeout and no leave to transfer.
pub proof fn lemma_timeout_without_transfer(wait: WaitView, revents: u16)
    ensures
        ready_spec(wait, Ok(PollResult { ready: 0, revents })) == Err::<TransferKind, ErrorView>(
            ErrorView::Timeout,
        ),
{
}

/// A write of no bytes never comes to wait: with or without a deadline it
/// is refused as an invalid parameter before any call to the system.
pub proof fn lemma_empty_write_refused_at_once()
    ensures
        write_check_spec(0) == Err::<(), ErrorView>(
            ErrorView::InvalidParameter("Cannot write empty data"@),
        ),
{
}

/// A read that meets the end of the stream means that the device is gone,
/// whether the system reports it as a read of no bytes or as a failure at
/// end of stream; it is never a successful read of nothing.
pub proof fn lemma_end_of_stream_disconnects(e: IoErrorView)
    requires
        e.kind == IoErrorKind::UnexpectedEof,
    ensures
        finish_spec(TransferKind::Read, Ok(0)) == Err::<usize, ErrorView>(ErrorView::Disconnected),
        finish_spec(TransferKind::Read, Err(e)) == Err::<usize, ErrorView>(
            ErrorView::Disconnected,
        ),
{
}

} // verus!
