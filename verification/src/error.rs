//! Error types for the library.

use crate::text::{decimal, usize_to_decimal};
use vstd::prelude::*;
use vstd::std_specs::convert::FromSpecImpl;
use vstd::string::*;

verus! {

/// Result type alias for the library.
pub type Result<T> = core::result::Result<T, Error>;

/// The classes of operating-system failure that the library tells apart.
#[derive(Debug, Clone, Copy, PartialEq, Eq, Structural)]
pub enum IoErrorKind {
    NotFound,
    PermissionDenied,
    NotConnected,
    BrokenPipe,
    UnexpectedEof,
    Other,
}

/// A failed system call: its class, the raw OS code when there is one, and
/// the text that describes it.
#[derive(Debug)]
pub struct IoError {
    pub kind: IoErrorKind,
    pub raw_os_error: Option<i32>,
    pub message: String,
}

/// Mathematical value of an [`IoError`].
pub struct IoErrorView {
    pub kind: IoErrorKind,
    pub raw_os_error: Option<i32>,
    pub message: Seq<char>,
}

impl View for IoError {
    type V = IoErrorView;

    open spec fn view(&self) -> IoErrorView {
        IoErrorView { kind: self.kind, raw_os_error: self.raw_os_error, message: self.message@ }
    }
}

impl Clone for IoError {
    fn clone(&self) -> (r: Self)
        ensures
            r == *self,
    {
        IoError {
            kind: self.kind,
            raw_os_error: self.raw_os_error,
            message: self.message.clone(),
        }
    }
}

impl IoError {
    /// An error of the given class with a custom message and no OS code.
    pub fn new(kind: IoErrorKind, message: &str) -> (r: Self)
        ensures
            r@ == (IoErrorView { kind, raw_os_error: None, message: message@ }),
    {
        IoError { kind, raw_os_error: None, message: message.to_owned() }
    }

    /// The class of the failure.
    pub fn kind(&self) -> (k: IoErrorKind)
        ensures
            k == self.kind,
    {
        self.kind
    }
}

/// Main error type for HID operations.
#[derive(Debug)]
pub enum Error {
    /// I/O error from system calls
    Io(IoError),
    /// Device not found
    DeviceNotFound,
    /// Invalid device path
    InvalidPath(String),
    /// Timeout during read operation
    Timeout,
    /// Invalid data received
    InvalidData(String),
    /// Feature not supported
    NotSupported(String),
    /// Permission denied
    PermissionDenied,
    /// Device disconnected
    Disconnected,
    /// Protocol error
    Protocol(String),
    /// Buffer too small
    BufferTooSmall { needed: usize, got: usize },
    /// Invalid parameter
    InvalidParameter(String),
    /// System call error
    SystemCall(String),
    /// Parse error
    Parse(String),
}

/// Mathematical value of an [`Error`]: the variant, with texts as sequences
/// of characters.
pub enum ErrorView {
    Io(IoErrorView),
    DeviceNotFound,
    InvalidPath(Seq<char>),
    Timeout,
    InvalidData(Seq<char>),
    NotSupported(Seq<char>),
    PermissionDenied,
    Disconnected,
    Protocol(Seq<char>),
    BufferTooSmall { needed: usize, got: usize },
    InvalidParameter(Seq<char>),
    SystemCall(Seq<char>),
    Parse(Seq<char>),
}

impl View for Error {
    type V = ErrorView;

    open spec fn view(&self) -> ErrorView {
        match *self {
            Error::Io(e) => ErrorView::Io(e@),
            Error::DeviceNotFound => ErrorView::DeviceNotFound,
            Error::InvalidPath(s) => ErrorView::InvalidPath(s@),
            Error::Timeout => ErrorView::Timeout,
            Error::InvalidData(s) => ErrorView::InvalidData(s@),
            Error::NotSupported(s) => ErrorView::NotSupported(s@),
            Error::PermissionDenied => ErrorView::PermissionDenied,
            Error::Disconnected => ErrorView::Disconnected,
            Error::Protocol(s) => ErrorView::Protocol(s@),
            Error::BufferTooSmall { needed, got } => ErrorView::BufferTooSmall { needed, got },
            Error::InvalidParameter(s) => ErrorView::InvalidParameter(s@),
            Error::SystemCall(s) => ErrorView::SystemCall(s@),
            Error::Parse(s) => ErrorView::Parse(s@),
        }
    }
}

impl ErrorView {
    /// Whether the error reports an elapsed deadline.
    pub open spec fn is_timeout(self) -> bool {
        self is Timeout
    }

    /// Whether the error reports missing access rights, directly or as the
    /// class of an I/O failure.
    pub open spec fn is_permission_denied(self) -> bool {
        match self {
            ErrorView::PermissionDenied => true,
            ErrorView::Io(e) => e.kind == IoErrorKind::PermissionDenied,
            _ => false,
        }
    }

    /// Whether the error reports that the peripheral went away, directly or
    /// as the class of an I/O failure.
    pub open spec fn is_disconnected(self) -> bool {
        match self {
            ErrorView::Disconnected => true,
            ErrorView::Io(e) => e.kind == IoErrorKind::UnexpectedEof || e.kind
                == IoErrorKind::BrokenPipe || e.kind == IoErrorKind::NotConnected,
            _ => false,
        }
    }
}

impl Error {
    /// Create an I/O error with custom message
    pub fn io_error(msg: &str) -> (r: Self)
        ensures
            r@ == ErrorView::Io(
                IoErrorView { kind: IoErrorKind::Other, raw_os_error: None, message: msg@ },
            ),
    {
        Error::Io(IoError::new(IoErrorKind::Other, msg))
    }

    /// Check if this is a timeout error
    pub fn is_timeout(&self) -> (b: bool)
        ensures
            b == self@.is_timeout(),
    {
        matches!(self, Error::Timeout)
    }

    /// Check if this is a permission error
    pub fn is_permission_denied(&self) -> (b: bool)
        ensures
            b == self@.is_permission_denied(),
    {
        match self {
            Error::PermissionDenied => true,
            Error::Io(e) => e.kind() == IoErrorKind::PermissionDenied,
            _ => false,
        }
    }

    /// Check if device is disconnected
    pub fn is_disconnected(&self) -> (b: bool)
        ensures
            b == self@.is_disconnected(),
    {
        match self {
            Error::Disconnected => true,
            Error::Io(e) => matches!(
                e.kind(),
                IoErrorKind::UnexpectedEof | IoErrorKind::BrokenPipe | IoErrorKind::NotConnected
            ),
            _ => false,
        }
    }
}

impl ErrorView {
    /// The message of the error.
    pub open spec fn message(self) -> Seq<char> {
        match self {
            ErrorView::Io(e) => "I/O error: "@ + e.message,
            ErrorView::DeviceNotFound => "HID device not found"@,
            ErrorView::InvalidPath(s) => "Invalid device path: "@ + s,
            ErrorView::Timeout => "Read timeout"@,
            ErrorView::InvalidData(s) => "Invalid data: "@ + s,
            ErrorView::NotSupported(s) => "Feature not supported: "@ + s,
            ErrorView::PermissionDenied => "Permission denied accessing device"@,
            ErrorView::Disconnected => "Device disconnected"@,
            ErrorView::Protocol(s) => "Protocol error: "@ + s,
            ErrorView::BufferTooSmall { needed, got } => "Buffer too small: needed "@ + decimal(
                needed as nat,
            ) + " bytes, got "@ + decimal(got as nat) + " bytes"@,
            ErrorView::InvalidParameter(s) => "Invalid parameter: "@ + s,
            ErrorView::SystemCall(s) => "System call failed: "@ + s,
            ErrorView::Parse(s) => "Parse error: "@ + s,
        }
    }
}

/// A prefix followed by a detail.
fn prefixed(prefix: &str, detail: &str) -> (s: String)
    ensures
        s@ == prefix@ + detail@,
{
    let mut s = String::from_str(prefix);
    s.append(detail);
    s
}

impl Error {
    /// The message of the error, as it is displayed.
    pub fn to_string(&self) -> (s: String)
        ensures
            s@ == self@.message(),
    {
        match self {
            Error::Io(e) => prefixed("I/O error: ", e.message.as_str()),
            Error::DeviceNotFound => String::from_str("HID device not found"),
            Error::InvalidPath(s) => prefixed("Invalid device path: ", s.as_str()),
            Error::Timeout => String::from_str("Read timeout"),
            Error::InvalidData(s) => prefixed("Invalid data: ", s.as_str()),
            Error::NotSupported(s) => prefixed("Feature not supported: ", s.as_str()),
            Error::PermissionDenied => String::from_str("Permission denied accessing device"),
            Error::Disconnected => String::from_str("Device disconnected"),
            Error::Protocol(s) => prefixed("Protocol error: ", s.as_str()),
            Error::BufferTooSmall { needed, got } => {
                let mut s = String::from_str("Buffer too small: needed ");
                let needed_text = usize_to_decimal(*needed);
                s.append(needed_text.as_str());
                s.append(" bytes, got ");
                let got_text = usize_to_decimal(*got);
                s.append(got_text.as_str());
                s.append(" bytes");
                s
            },
            Error::InvalidParameter(s) => prefixed("Invalid parameter: ", s.as_str()),
            Error::SystemCall(s) => prefixed("System call failed: ", s.as_str()),
            Error::Parse(s) => prefixed("Parse error: ", s.as_str()),
        }
    }
}

/// Calls `std::io::Error::from_raw_os_error` and takes the class, the code
/// and the text of the error it gives. Trusted: the error carries the code
/// it was made from. Class and text are the platform's and nothing is
/// claimed of them.
#[verifier::external_body]
fn os_error(errno: i32) -> (e: IoError)
    ensures
        e.raw_os_error == Some(errno),
{
    let e = std::io::Error::from_raw_os_error(errno);
    let kind = match e.kind() {
        std::io::ErrorKind::NotFound => IoErrorKind::NotFound,
        std::io::ErrorKind::PermissionDenied => IoErrorKind::PermissionDenied,
        std::io::ErrorKind::NotConnected => IoErrorKind::NotConnected,
        std::io::ErrorKind::BrokenPipe => IoErrorKind::BrokenPipe,
        std::io::ErrorKind::UnexpectedEof => IoErrorKind::UnexpectedEof,
        _ => IoErrorKind::Other,
    };
    IoError { kind, raw_os_error: e.raw_os_error(), message: e.to_string() }
}

/// The conversion from an error code goes by the platform's table of
/// codes, so specifications give it no value of its own.
impl FromSpecImpl<i32> for Error {
    open spec fn obeys_from_spec() -> bool {
        false
    }

    open spec fn from_spec(errno: i32) -> Self {
        arbitrary()
    }
}

/// Convert from errno to Error
impl From<i32> for Error {
    fn from(errno: i32) -> (r: Self)
        ensures
            r matches Error::Io(e) && e.raw_os_error == Some(errno),
    {
        Error::Io(os_error(errno))
    }
}

} // verus!
