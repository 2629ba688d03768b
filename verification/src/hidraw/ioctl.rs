//! What the control calls of the driver return: counts, and the strings
//! of its fixed buffers.

use crate::error::{Error, ErrorView, IoError, IoErrorView, Result};
use crate::hidraw::device::count_view;
use crate::text::string_from_utf8;
use vstd::prelude::*;
use vstd::string::*;

verus! {

/// What a control call on a buffer returned: a negative value is the I/O
/// failure that the system reports, any other value a count of bytes.
pub open spec fn ioctl_count_spec(ret: i32, os_error: IoErrorView) -> core::result::Result<
    usize,
    ErrorView,
> {
    if ret < 0 {
        Err(ErrorView::Io(os_error))
    } else {
        Ok(ret as usize)
    }
}

/// Read a buffer via ioctl: takes the value that the call returned and the
/// last error of the system.
pub fn ioctl_read_buf(ret: i32, os_error: IoError) -> (r: Result<usize>)
    ensures
        count_view(r) == ioctl_count_spec(ret, os_error@),
{
    if ret < 0 {
        Err(Error::Io(os_error))
    } else {
        Ok(ret as usize)
    }
}

/// Write a buffer via ioctl: takes the value that the call returned and
/// the last error of the system.
pub fn ioctl_write_buf(ret: i32, os_error: IoError) -> (r: Result<usize>)
    ensures
        count_view(r) == ioctl_count_spec(ret, os_error@),
{
    if ret < 0 {
        Err(Error::Io(os_error))
    } else {
        Ok(ret as usize)
    }
}

/// The bytes of a buffer before its first zero byte; all of them where it
/// holds none.
pub open spec fn nul_terminated(buf: Seq<u8>) -> Seq<u8>
    decreases buf.len(),
{
    if buf.len() == 0 || buf.first() == 0 {
        Seq::empty()
    } else {
        seq![buf.first()] + nul_terminated(buf.drop_first())
    }
}

/// The string of a fixed buffer of the driver: its bytes up to the first
/// zero, which must be UTF-8. `what` names the string in the error.
pub open spec fn raw_string_spec(
    outcome: core::result::Result<Seq<u8>, IoErrorView>,
    what: Seq<char>,
) -> core::result::Result<Seq<char>, ErrorView> {
    match outcome {
        Err(e) => Err(ErrorView::Io(e)),
        Ok(buf) => if vstd::utf8::valid_utf8(nul_terminated(buf)) {
            Ok(vstd::utf8::decode_utf8(nul_terminated(buf)))
        } else {
            Err(ErrorView::Parse("Invalid UTF-8 in "@ + what))
        },
    }
}

/// The outcome of a call that fills a string buffer, over mathematical
/// values.
pub open spec fn buffer_view(outcome: core::result::Result<[u8; 256], IoError>)
    -> core::result::Result<Seq<u8>, IoErrorView> {
    match outcome {
        Ok(buf) => Ok(buf@),
        Err(e) => Err(e@),
    }
}

/// The outcome of a step that gives a string, over mathematical values.
pub open spec fn string_view(r: Result<String>) -> core::result::Result<Seq<char>, ErrorView> {
    match r {
        Ok(s) => Ok(s@),
        Err(e) => Err(e@),
    }
}

/// Finds the zero byte that ends the string and converts what is before it.
fn raw_string(outcome: core::result::Result<[u8; 256], IoError>, what: &str) -> (r: Result<String>)
    ensures
        string_view(r) == raw_string_spec(buffer_view(outcome), what@),
{
    match outcome {
        Err(e) => Err(Error::Io(e)),
        Ok(buf) => {
            let mut bytes: Vec<u8> = Vec::new();
            let mut i: usize = 0;
            assert(buf@.skip(0) =~= buf@);
            assert(bytes@ + nul_terminated(buf@) =~= nul_terminated(buf@));
            while i < 256 && buf[i] != 0
                invariant
                    i <= 256,
                    buf@.len() == 256,
                    nul_terminated(buf@) == bytes@ + nul_terminated(buf@.skip(i as int)),
                decreases 256 - i,
            {
                let ghost rest = buf@.skip(i as int);
                assert(rest.first() == buf@[i as int]);
                assert(rest.drop_first() =~= buf@.skip(i + 1));
                let ghost before = bytes@;
                bytes.push(buf[i]);
                assert(before + (seq![rest.first()] + nul_terminated(rest.drop_first()))
                    =~= bytes@ + nul_terminated(buf@.skip(i + 1)));
                i = i + 1;
            }
            proof {
                let rest = buf@.skip(i as int);
                if i < 256 {
                    assert(rest.first() == buf@[i as int]);
                }
                assert(nul_terminated(rest) =~= Seq::<u8>::empty());
                assert(bytes@ + Seq::<u8>::empty() =~= bytes@);
            }
            match string_from_utf8(bytes) {
                Some(text) => Ok(text),
                None => {
                    let mut message = String::from_str("Invalid UTF-8 in ");
                    message.append(what);
                    Err(Error::Parse(message))
                },
            }
        },
    }
}

/// Get raw device name from what the fixed 256-byte buffer call returned
pub fn get_raw_name(outcome: core::result::Result<[u8; 256], IoError>) -> (r: Result<String>)
    ensures
        string_view(r) == raw_string_spec(buffer_view(outcome), "device name"@),
{
    raw_string(outcome, "device name")
}

/// Get raw physical info from what the fixed 256-byte buffer call returned
pub fn get_raw_phys(outcome: core::result::Result<[u8; 256], IoError>) -> (r: Result<String>)
    ensures
        string_view(r) == raw_string_spec(buffer_view(outcome), "physical info"@),
{
    raw_string(outcome, "physical info")
}

/// Get raw unique ID from what the fixed 256-byte buffer call returned
pub fn get_raw_uniq(outcome: core::result::Result<[u8; 256], IoError>) -> (r: Result<String>)
    ensures
        string_view(r) == raw_string_spec(buffer_view(outcome), "unique ID"@),
{
    raw_string(outcome, "unique ID")
}

} // verus!
