//! Coldcard communication protocol implementation
//!
//! One command exchange is a state machine. The caller performs each
//! requested write or read on the device and hands the outcome back; the
//! machine decides what happens next.

use crate::coldcard::constants::{MAX_MSG_SIZE, PACKET_SIZE};
use crate::error::{Error, ErrorView, Result};
use crate::protocol::framing::{
    bytes_outcome, frame_packets, frame_spec, is_last, packet_seq, unframe_packets, unframe_spec,
    LAST_PACKET_FLAG,
};
use crate::text::{decimal, u128_to_decimal};
use crate::timeout::Timeout;
use vstd::prelude::*;
use vstd::string::*;

verus! {

/// Most packets that one response may take.
pub const MAX_RESPONSE_PACKETS: usize = MAX_MSG_SIZE / PACKET_SIZE;

/// The deadline of a response where the caller sets none: five seconds
/// from the end of the request to the last packet of the response.
pub open spec fn response_timeout() -> Timeout {
    Timeout { secs: 5, nanos: 0 }
}

/// Where an exchange stands.
pub enum ExchangeState {
    /// No exchange is under way.
    Idle,
    /// The request packets from `next` on are still to be written.
    Sending { packets: Seq<Seq<u8>>, next: int },
    /// The request is out; `received` holds the response packets so far
    /// and `remaining` is what is left of the deadline of the exchange.
    AwaitingResponse { received: Seq<Seq<u8>>, remaining: Timeout },
}

impl ExchangeState {
    /// What holds of every state that an exchange reaches: a packet is
    /// pending while sending, and the packets received so far are within
    /// the bound, full sized, and none of them ends the message.
    pub open spec fn valid(self) -> bool {
        match self {
            ExchangeState::Idle => true,
            ExchangeState::Sending { packets, next } => 0 <= next < packets.len(),
            ExchangeState::AwaitingResponse { received, .. } => {
                &&& received.len() <= MAX_RESPONSE_PACKETS
                &&& forall|i: int|
                    0 <= i < received.len() ==> (#[trigger] received[i]).len() == PACKET_SIZE
                        && !is_last(received[i])
            },
        }
    }
}

/// What the caller does next.
pub enum Step {
    /// Write this packet to the device, then report with `on_write`.
    Write(Vec<u8>),
    /// Read one packet within this time, which is what is left of the
    /// deadline of the exchange, then report with `on_read`.
    Read { timeout: Timeout },
    /// The exchange is over, with the response payload or the failure.
    Done(Result<Vec<u8>>),
}

/// Mathematical value of a [`Step`].
pub enum StepView {
    Write(Seq<u8>),
    Read { timeout: Timeout },
    Done(core::result::Result<Seq<u8>, ErrorView>),
}

impl View for Step {
    type V = StepView;

    open spec fn view(&self) -> StepView {
        match *self {
            Step::Write(packet) => StepView::Write(packet@),
            Step::Read { timeout } => StepView::Read { timeout },
            Step::Done(r) => StepView::Done(bytes_outcome(r)),
        }
    }
}

/// The outcome of a transfer, over mathematical values.
pub open spec fn count_outcome(r: Result<usize>) -> core::result::Result<usize, ErrorView> {
    match r {
        Ok(n) => Ok(n),
        Err(e) => Err(e@),
    }
}

/// The request payload: the command tag, then the argument bytes if any.
pub open spec fn request_payload(cmd: Seq<u8>, data: Option<Seq<u8>>) -> Seq<u8> {
    match data {
        Some(d) => cmd + d,
        None => cmd,
    }
}

/// Whether command and arguments together exceed the largest message.
pub open spec fn request_too_large(cmd: Seq<u8>, data: Option<Seq<u8>>) -> bool {
    data matches Some(d) && cmd.len() + d.len() > MAX_MSG_SIZE
}

/// Text of the error for a request that is too large.
pub open spec fn too_large_message(total: nat) -> Seq<char> {
    "Message too large: "@ + decimal(total) + " bytes (max 4096)"@
}

/// Start of an exchange: a request that is too large is refused before
/// anything is sent; otherwise the request is framed at the packet size and
/// its first packet is to be written.
pub open spec fn start_spec(cmd: Seq<u8>, data: Option<Seq<u8>>) -> (ExchangeState, StepView) {
    if request_too_large(cmd, data) {
        (
            ExchangeState::Idle,
            StepView::Done(
                Err(
                    ErrorView::InvalidParameter(
                        too_large_message(request_payload(cmd, data).len()),
                    ),
                ),
            ),
        )
    } else {
        let packets = frame_spec(request_payload(cmd, data), PACKET_SIZE as nat);
        (ExchangeState::Sending { packets, next: 0 }, StepView::Write(packets[0]))
    }
}

/// After a write: a failure ends the exchange with that failure; otherwise
/// the next packet follows, and after the last one the response is awaited
/// under the deadline of the exchange, which begins then.
pub open spec fn write_spec(
    packets: Seq<Seq<u8>>,
    next: int,
    outcome: core::result::Result<usize, ErrorView>,
    deadline: Timeout,
) -> (ExchangeState, StepView) {
    match outcome {
        Err(e) => (ExchangeState::Idle, StepView::Done(Err(e))),
        Ok(_) => if next + 1 < packets.len() {
            (
                ExchangeState::Sending { packets, next: next + 1 },
                StepView::Write(packets[next + 1]),
            )
        } else {
            (
                ExchangeState::AwaitingResponse { received: Seq::empty(), remaining: deadline },
                StepView::Read { timeout: deadline },
            )
        },
    }
}

/// After a read that took `elapsed`: a failure ends the exchange with that
/// failure, and a read of no bytes ends it as disconnected. Otherwise the
/// packet is kept. More packets than the bound is a protocol error; within
/// the bound, a packet flagged as last completes the exchange with the
/// decoded payload. Any other packet asks for one more read within what is
/// left of the deadline, and where nothing is left the exchange has timed
/// out.
pub open spec fn read_spec(
    received: Seq<Seq<u8>>,
    remaining: Timeout,
    outcome: core::result::Result<usize, ErrorView>,
    buffer: Seq<u8>,
    elapsed: Timeout,
) -> (ExchangeState, StepView) {
    match outcome {
        Err(e) => (ExchangeState::Idle, StepView::Done(Err(e))),
        Ok(n) => if n == 0 {
            (ExchangeState::Idle, StepView::Done(Err(ErrorView::Disconnected)))
        } else if received.len() + 1 > MAX_RESPONSE_PACKETS {
            (
                ExchangeState::Idle,
                StepView::Done(
                    Err(ErrorView::Protocol("Response too large or missing end marker"@)),
                ),
            )
        } else if is_last(buffer) {
            (ExchangeState::Idle, StepView::Done(unframe_spec(received.push(buffer))))
        } else if remaining.less_spec(elapsed).nanos_of() == 0 {
            (ExchangeState::Idle, StepView::Done(Err(ErrorView::Timeout)))
        } else {
            (
                ExchangeState::AwaitingResponse {
                    received: received.push(buffer),
                    remaining: remaining.less_spec(elapsed),
                },
                StepView::Read { timeout: remaining.less_spec(elapsed) },
            )
        },
    }
}

enum Phase {
    Idle,
    Sending { packets: Vec<Vec<u8>>, next: usize },
    AwaitingResponse { received: Vec<Vec<u8>>, remaining: Timeout },
}

/// Low-level Coldcard protocol handler: the deadline that its exchanges go
/// by, and the state of the exchange under way.
pub struct ColdcardProtocol {
    deadline: Timeout,
    phase: Phase,
}

impl ColdcardProtocol {
    #[verifier::type_invariant]
    spec fn consistent(self) -> bool {
        self.state().valid()
    }

    /// The state of the exchange.
    pub closed spec fn state(self) -> ExchangeState {
        match self.phase {
            Phase::Idle => ExchangeState::Idle,
            Phase::Sending { packets, next } => ExchangeState::Sending {
                packets: packet_seq(packets@),
                next: next as int,
            },
            Phase::AwaitingResponse { received, remaining } => ExchangeState::AwaitingResponse {
                received: packet_seq(received@),
                remaining,
            },
        }
    }

    /// The deadline of a response: the time from the end of the request
    /// within which the whole response must arrive.
    pub closed spec fn deadline(self) -> Timeout {
        self.deadline
    }

    /// Create a new protocol handler, with the deadline of five seconds.
    pub fn new() -> (p: Self)
        ensures
            p.state() is Idle,
            p.deadline() == response_timeout(),
    {
        ColdcardProtocol { deadline: Timeout::from_secs(5), phase: Phase::Idle }
    }

    /// Create a new protocol handler with a deadline of the caller's.
    pub fn with_deadline(deadline: Timeout) -> (p: Self)
        ensures
            p.state() is Idle,
            p.deadline() == deadline,
    {
        ColdcardProtocol { deadline, phase: Phase::Idle }
    }

    /// Whether a request packet is waiting to be written.
    pub fn is_sending(&self) -> (b: bool)
        ensures
            b == (self.state() is Sending),
    {
        matches!(self.phase, Phase::Sending { .. })
    }

    /// Whether a response packet is waited for.
    pub fn is_awaiting_response(&self) -> (b: bool)
        ensures
            b == (self.state() is AwaitingResponse),
    {
        matches!(self.phase, Phase::AwaitingResponse { .. })
    }

    /// The deadline that the exchanges of this handler go by.
    pub fn response_deadline(&self) -> (deadline: Timeout)
        ensures
            deadline == self.deadline(),
    {
        self.deadline
    }

    /// Send a command and receive response: begins the exchange, whatever
    /// stood before.
    pub fn send_command(self, cmd: &[u8; 4], data: Option<&[u8]>) -> (r: (Self, Step))
        ensures
            r.0.state().valid(),
            r.0.deadline() == self.deadline(),
            (r.0.state(), r.1@) == start_spec(
                cmd@,
                match data {
                    Some(d) => Some(d@),
                    None => None,
                },
            ),
    {
        let ghost payload = request_payload(
            cmd@,
            match data {
                Some(d) => Some(d@),
                None => None,
            },
        );
        let deadline = self.deadline;
        let mut request: Vec<u8> = Vec::new();
        let mut i: usize = 0;
        while i < 4
            invariant
                i <= 4,
                request@ == cmd@.take(i as int),
            decreases 4 - i,
        {
            request.push(cmd[i]);
            i = i + 1;
            assert(request@ =~= cmd@.take(i as int));
        }
        assert(cmd@.take(4) =~= cmd@);
        if let Some(d) = data {
            if d.len() > MAX_MSG_SIZE - 4 {
                let mut message = String::from_str("Message too large: ");
                let total = u128_to_decimal(d.len() as u128 + 4);
                message.append(total.as_str());
                message.append(" bytes (max 4096)");
                return (
                    ColdcardProtocol { deadline, phase: Phase::Idle },
                    Step::Done(Err(Error::InvalidParameter(message))),
                );
            }
            let mut k: usize = 0;
            while k < d.len()
                invariant
                    k <= d@.len(),
                    request@ == cmd@ + d@.take(k as int),
                decreases d@.len() - k,
            {
                request.push(d[k]);
                k = k + 1;
                assert(request@ =~= cmd@ + d@.take(k as int));
            }
            assert(d@.take(d@.len() as int) =~= d@);
        }
        assert(request@ == payload);
        let packets = frame_packets(request.as_slice(), PACKET_SIZE);
        proof {
            crate::protocol::roundtrip::lemma_frame_shape(payload, PACKET_SIZE as nat);
        }
        let first = packets[0].clone();
        assert(first@ =~= packets@[0]@);
        (ColdcardProtocol { deadline, phase: Phase::Sending { packets, next: 0 } }, Step::Write(first))
    }

    /// Takes the outcome of the write that was asked for.
    pub fn on_write(self, outcome: Result<usize>) -> (r: (Self, Step))
        requires
            self.state() is Sending,
        ensures
            r.0.state().valid(),
            r.0.deadline() == self.deadline(),
            (r.0.state(), r.1@) == write_spec(
                self.state()->packets,
                self.state()->next,
                count_outcome(outcome),
                self.deadline(),
            ),
    {
        proof {
            use_type_invariant(&self);
        }
        let deadline = self.deadline;
        match self.phase {
            Phase::Sending { packets, next } => {
                match outcome {
                    Err(e) => (ColdcardProtocol { deadline, phase: Phase::Idle }, Step::Done(Err(e))),
                    Ok(_) => {
                        let count = packets.len();
                        if next + 1 < count {
                            let packet = packets[next + 1].clone();
                            assert(packet@ =~= packets@[next + 1]@);
                            (
                                ColdcardProtocol {
                                    deadline,
                                    phase: Phase::Sending { packets, next: next + 1 },
                                },
                                Step::Write(packet),
                            )
                        } else {
                            let received: Vec<Vec<u8>> = Vec::new();
                            assert(packet_seq(received@) =~= Seq::<Seq<u8>>::empty());
                            (
                                ColdcardProtocol {
                                    deadline,
                                    phase: Phase::AwaitingResponse {
                                        received,
                                        remaining: deadline,
                                    },
                                },
                                Step::Read { timeout: deadline },
                            )
                        }
                    },
                }
            },
            _ => unreached(),
        }
    }

    /// Takes the outcome of the read that was asked for, with the buffer
    /// that was read into and the time that the read took.
    pub fn on_read(self, outcome: Result<usize>, buffer: [u8; 64], elapsed: Timeout) -> (r: (
        Self,
        Step,
    ))
        requires
            self.state() is AwaitingResponse,
        ensures
            r.0.state().valid(),
            r.0.deadline() == self.deadline(),
            (r.0.state(), r.1@) == read_spec(
                self.state()->received,
                self.state()->remaining,
                count_outcome(outcome),
                buffer@,
                elapsed,
            ),
    {
        proof {
            use_type_invariant(&self);
        }
        let deadline = self.deadline;
        match self.phase {
            Phase::AwaitingResponse { received, remaining } => {
                let mut received = received;
                match outcome {
                    Err(e) => (ColdcardProtocol { deadline, phase: Phase::Idle }, Step::Done(Err(e))),
                    Ok(n) => {
                        if n == 0 {
                            return (
                                ColdcardProtocol { deadline, phase: Phase::Idle },
                                Step::Done(Err(Error::Disconnected)),
                            );
                        }
                        let ghost before = packet_seq(received@);
                        let mut packet: Vec<u8> = Vec::new();
                        let mut i: usize = 0;
                        while i < 64
                            invariant
                                i <= 64,
                                packet@ == buffer@.take(i as int),
                            decreases 64 - i,
                        {
                            packet.push(buffer[i]);
                            i = i + 1;
                            assert(packet@ =~= buffer@.take(i as int));
                        }
                        assert(buffer@.take(64) =~= buffer@);
                        let complete = (buffer[0] & LAST_PACKET_FLAG) != 0;
                        received.push(packet);
                        assert(packet_seq(received@) =~= before.push(buffer@));
                        assert(packet_seq(received@)[received@.len() - 1] == buffer@);
                        if received.len() > MAX_RESPONSE_PACKETS {
                            return (
                                ColdcardProtocol { deadline, phase: Phase::Idle },
                                Step::Done(
                                    Err(
                                        Error::Protocol(
                                            String::from_str(
                                                "Response too large or missing end marker",
                                            ),
                                        ),
                                    ),
                                ),
                            );
                        }
                        if complete {
                            let payload = unframe_packets(received.as_slice());
                            (ColdcardProtocol { deadline, phase: Phase::Idle }, Step::Done(payload))
                        } else {
                            let left = remaining.less(elapsed);
                            if left.is_zero() {
                                (
                                    ColdcardProtocol { deadline, phase: Phase::Idle },
                                    Step::Done(Err(Error::Timeout)),
                                )
                            } else {
                                (
                                    ColdcardProtocol {
                                        deadline,
                                        phase: Phase::AwaitingResponse {
                                            received,
                                            remaining: left,
                                        },
                                    },
                                    Step::Read { timeout: left },
                                )
                            }
                        }
                    },
                }
            },
            _ => unreached(),
        }
    }
}

} // verus!
