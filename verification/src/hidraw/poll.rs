//! Waiting for readiness: what to ask of `poll` and how to read its answer.

use crate::error::{Error, ErrorView, IoError, IoErrorKind, IoErrorView, Result};
use crate::timeout::Timeout;
use vstd::prelude::*;
use vstd::string::*;

verus! {

/// The direction of a transfer that is waited for.
#[derive(Debug, Clone, Copy, PartialEq, Eq, Structural)]
pub enum Direction {
    /// Data to read from the device.
    In,
    /// Room to write to the device.
    Out,
}

/// Readiness bit for data to read, `POLLIN`.
pub const POLL_IN: u16 = 0x0001;

/// Readiness bit for room to write, `POLLOUT`.
pub const POLL_OUT: u16 = 0x0004;

/// Readiness bit for an error condition, `POLLERR`.
pub const POLL_ERR: u16 = 0x0008;

/// Readiness bit for a hang-up, `POLLHUP`.
pub const POLL_HUP: u16 = 0x0010;

/// The bits of `rustix::event::PollFlags::IN`. Trusted: on Linux the flag
/// is `POLLIN`, 1.
#[verifier::external_body]
fn input_bits() -> (bits: u16)
    ensures
        bits == POLL_IN,
{
    rustix::event::PollFlags::IN.bits()
}

/// The bits of `rustix::event::PollFlags::OUT`. Trusted: on Linux the flag
/// is `POLLOUT`, 4.
#[verifier::external_body]
fn output_bits() -> (bits: u16)
    ensures
        bits == POLL_OUT,
{
    rustix::event::PollFlags::OUT.bits()
}

/// Calls `rustix::event::PollFlags::contains` with `PollFlags::ERR` on the
/// flags of the given bits. Trusted: `contains` holds where every bit of
/// the flag is set, and on Linux the flag is `POLLERR`, 8.
#[verifier::external_body]
fn signals_error(revents: u16) -> (b: bool)
    ensures
        b == (revents & POLL_ERR == POLL_ERR),
{
    rustix::event::PollFlags::from_bits_retain(revents).contains(rustix::event::PollFlags::ERR)
}

/// Calls `rustix::event::PollFlags::contains` with `PollFlags::HUP` on the
/// flags of the given bits. Trusted: `contains` holds where every bit of
/// the flag is set, and on Linux the flag is `POLLHUP`, 16.
#[verifier::external_body]
fn signals_hangup(revents: u16) -> (b: bool)
    ensures
        b == (revents & POLL_HUP == POLL_HUP),
{
    rustix::event::PollFlags::from_bits_retain(revents).contains(rustix::event::PollFlags::HUP)
}

/// What to hand to `poll`: the events to wait for on the handle and the
/// longest time to wait, as the two fields of a `timespec`.
#[derive(Debug, Clone, Copy, PartialEq, Eq, Structural)]
pub struct PollRequest {
    pub events: u16,
    pub tv_sec: i64,
    pub tv_nsec: i64,
}

/// What `poll` returned: how many handles are ready, and the readiness
/// bits of the handle.
#[derive(Debug, Clone, Copy, PartialEq, Eq, Structural)]
pub struct PollResult {
    pub ready: usize,
    pub revents: u16,
}

/// The request that waits for one direction under a deadline. Seconds
/// beyond the range of the `timespec` field wrap.
pub open spec fn poll_request_spec(direction: Direction, timeout: Timeout) -> PollRequest {
    PollRequest {
        events: match direction {
            Direction::In => POLL_IN,
            Direction::Out => POLL_OUT,
        },
        tv_sec: timeout.secs as i64,
        tv_nsec: timeout.nanos as i64,
    }
}

/// The request that waits for one direction under a deadline.
pub fn poll_request(direction: Direction, timeout: Timeout) -> (request: PollRequest)
    ensures
        request == poll_request_spec(direction, timeout),
{
    PollRequest {
        events: match direction {
            Direction::In => input_bits(),
            Direction::Out => output_bits(),
        },
        tv_sec: #[verifier::truncate] (timeout.secs as i64),
        tv_nsec: timeout.nanos as i64,
    }
}

/// What a wait came to: a failed call is an I/O failure; no ready handle
/// before the deadline is a timeout; an error condition on the handle is an
/// I/O failure and a hang-up a disconnect, in that order; otherwise the
/// handle is ready.
pub open spec fn poll_outcome_spec(outcome: core::result::Result<PollResult, IoErrorView>)
    -> core::result::Result<(), ErrorView> {
    match outcome {
        Err(e) => Err(ErrorView::Io(e)),
        Ok(result) => if result.ready == 0 {
            Err(ErrorView::Timeout)
        } else if result.revents & POLL_ERR == POLL_ERR {
            Err(
                ErrorView::Io(
                    IoErrorView {
                        kind: IoErrorKind::Other,
                        raw_os_error: None,
                        message: "Poll error on device"@,
                    },
                ),
            )
        } else if result.revents & POLL_HUP == POLL_HUP {
            Err(ErrorView::Disconnected)
        } else {
            Ok(())
        },
    }
}

/// The outcome of a wait, over mathematical values.
pub open spec fn poll_view(outcome: core::result::Result<PollResult, IoError>)
    -> core::result::Result<PollResult, IoErrorView> {
    match outcome {
        Ok(result) => Ok(result),
        Err(e) => Err(e@),
    }
}

/// The outcome of a step without a value, over mathematical values.
pub open spec fn unit_outcome(r: Result<()>) -> core::result::Result<(), ErrorView> {
    match r {
        Ok(_) => Ok(()),
        Err(e) => Err(e@),
    }
}

/// Reads what a wait came to.
pub fn poll_outcome(outcome: core::result::Result<PollResult, IoError>) -> (r: Result<()>)
    ensures
        unit_outcome(r) == poll_outcome_spec(poll_view(outcome)),
{
    match outcome {
        Err(e) => Err(Error::Io(e)),
        Ok(result) => {
            if result.ready == 0 {
                Err(Error::Timeout)
            } else if signals_error(result.revents) {
                Err(Error::io_error("Poll error on device"))
            } else if signals_hangup(result.revents) {
                Err(Error::Disconnected)
            } else {
                Ok(())
            }
        },
    }
}

} // verus!
