//! What holds of every command exchange: how a response ends, and that it
//! ends within the packet bound.

use crate::coldcard::constants::{MAX_MSG_SIZE, PACKET_SIZE};
use crate::coldcard::protocol::{
    read_spec, ExchangeState, StepView, MAX_RESPONSE_PACKETS,
};
use crate::error::ErrorView;
use crate::protocol::framing::{frame_spec, is_last, unframe_spec, well_formed};
use crate::timeout::Timeout;
use crate::protocol::roundtrip::lemma_frame_shape;
use vstd::prelude::*;

verus! {

/// One read as the caller reports it: the outcome, the buffer, and the
/// time that the read took.
pub struct ReadEvent {
    pub outcome: Result<usize, ErrorView>,
    pub buffer: Seq<u8>,
    pub elapsed: Timeout,
}

impl ReadEvent {
    /// Whether the read returned at least one byte.
    pub open spec fn delivered(self) -> bool {
        match self.outcome {
            Ok(n) => n > 0,
            Err(_) => false,
        }
    }
}

/// The time that a series of reads took, in nanoseconds.
pub open spec fn total_elapsed(events: Seq<ReadEvent>) -> nat
    decreases events.len(),
{
    if events.len() == 0 {
        0
    } else {
        events[0].elapsed.nanos_of() + total_elapsed(events.drop_first())
    }
}

/// The exchange after a series of reads, each handed to the machine in
/// turn for as long as it asks for another.
pub open spec fn after_reads(received: Seq<Seq<u8>>, remaining: Timeout, events: Seq<ReadEvent>)
    -> (ExchangeState, StepView)
    decreases events.len(),
{
    if events.len() == 0 {
        (
            ExchangeState::AwaitingResponse { received, remaining },
            StepView::Read { timeout: remaining },
        )
    } else {
        let next = read_spec(
            received,
            remaining,
            events[0].outcome,
            events[0].buffer,
            events[0].elapsed,
        );
        match next.0 {
            ExchangeState::AwaitingResponse { received: more, remaining: left } => after_reads(
                more,
                left,
                events.drop_first(),
            ),
            _ => next,
        }
    }
}

/// A read that returns no bytes while a response is awaited ends the
/// exchange as disconnected; it never counts as an empty packet.
pub proof fn lemma_empty_read_disconnects(
    received: Seq<Seq<u8>>,
    remaining: Timeout,
    buffer: Seq<u8>,
    elapsed: Timeout,
)
    ensures
        read_spec(received, remaining, Ok(0usize), buffer, elapsed) == (
            ExchangeState::Idle,
            StepView::Done(Err(ErrorView::Disconnected)),
        ),
{
}

/// No read ever yields a successful result unless it returned bytes and its
/// packet carries the last-packet flag.
pub proof fn lemma_success_needs_last_packet(
    received: Seq<Seq<u8>>,
    remaining: Timeout,
    outcome: Result<usize, ErrorView>,
    buffer: Seq<u8>,
    elapsed: Timeout,
)
    requires
        read_spec(received, remaining, outcome, buffer, elapsed).1 matches StepView::Done(Ok(_)),
    ensures
        outcome matches Ok(n) && n > 0,
        is_last(buffer),
        received.len() < MAX_RESPONSE_PACKETS,
{
}

/// Once the bound of packets is reached, one more packet is a protocol
/// error, whether or not it carries the last-packet flag.
pub proof fn lemma_bound_exceeded(
    received: Seq<Seq<u8>>,
    remaining: Timeout,
    n: usize,
    buffer: Seq<u8>,
    elapsed: Timeout,
)
    requires
        received.len() >= MAX_RESPONSE_PACKETS,
        n > 0,
    ensures
        read_spec(received, remaining, Ok(n), buffer, elapsed) == (
            ExchangeState::Idle,
            StepView::Done(
                Err(ErrorView::Protocol("Response too large or missing end marker"@)),
            ),
        ),
{
}

/// Every further read is asked for within what is left of the one
/// deadline: after a packet that does not end the response, the next read
/// has the time of the deadline less the time already spent, and the
/// exchange has timed out where none is left.
pub proof fn lemma_next_read_within_what_is_left(
    received: Seq<Seq<u8>>,
    remaining: Timeout,
    n: usize,
    buffer: Seq<u8>,
    elapsed: Timeout,
)
    requires
        received.len() < MAX_RESPONSE_PACKETS,
        n > 0,
        !is_last(buffer),
    ensures
        elapsed.nanos_of() >= remaining.nanos_of() ==> read_spec(
            received,
            remaining,
            Ok(n),
            buffer,
            elapsed,
        ) == (ExchangeState::Idle, StepView::Done(Err(ErrorView::Timeout))),
        elapsed.nanos_of() < remaining.nanos_of() ==> read_spec(
            received,
            remaining,
            Ok(n),
            buffer,
            elapsed,
        ).1 == (StepView::Read { timeout: remaining.less_spec(elapsed) })
            && remaining.less_spec(elapsed).nanos_of() <= remaining.nanos_of()
            - elapsed.nanos_of(),
{
    remaining.lemma_less_bounds(elapsed);
}

/// The wait for a response never outlasts the bound: whatever the reads
/// return, the exchange is over after at most one read more than the packets
/// that still fit.
pub proof fn lemma_reads_bounded(
    received: Seq<Seq<u8>>,
    remaining: Timeout,
    events: Seq<ReadEvent>,
)
    requires
        received.len() <= MAX_RESPONSE_PACKETS,
        events.len() > MAX_RESPONSE_PACKETS - received.len(),
    ensures
        after_reads(received, remaining, events).0 is Idle,
        after_reads(received, remaining, events).1 is Done,
    decreases events.len(),
{
    let next = read_spec(
        received,
        remaining,
        events[0].outcome,
        events[0].buffer,
        events[0].elapsed,
    );
    match next.0 {
        ExchangeState::AwaitingResponse { received: more, remaining: left } => {
            assert(more == received.push(events[0].buffer));
            lemma_reads_bounded(more, left, events.drop_first());
        },
        _ => {},
    }
}

/// A response whose packets never carry the last-packet flag fails: with a
/// protocol error as soon as it exceeds the bound, unless the deadline has
/// passed before, which is a timeout. Where the reads together take less
/// than the deadline, it is the protocol error.
pub proof fn lemma_unterminated_response_fails(
    received: Seq<Seq<u8>>,
    remaining: Timeout,
    events: Seq<ReadEvent>,
)
    requires
        received.len() <= MAX_RESPONSE_PACKETS,
        events.len() > MAX_RESPONSE_PACKETS - received.len(),
        forall|i: int|
            0 <= i < events.len() ==> (#[trigger] events[i]).delivered() && !is_last(
                events[i].buffer,
            ),
    ensures
        after_reads(received, remaining, events).0 is Idle,
        after_reads(received, remaining, events).1 == StepView::Done(
            Err(ErrorView::Protocol("Response too large or missing end marker"@)),
        ) || after_reads(received, remaining, events).1 == StepView::Done(
            Err(ErrorView::Timeout),
        ),
        remaining.normal() && total_elapsed(events) < remaining.nanos_of() ==> after_reads(
            received,
            remaining,
            events,
        ).1 == StepView::Done(
            Err(ErrorView::Protocol("Response too large or missing end marker"@)),
        ),
    decreases events.len(),
{
    let first = events[0];
    let next = read_spec(received, remaining, first.outcome, first.buffer, first.elapsed);
    assert(first.delivered());
    remaining.lemma_less_bounds(first.elapsed);
    if next.0 is AwaitingResponse {
        let more = next.0->received;
        let left = next.0->remaining;
        let rest = events.drop_first();
        assert forall|i: int| 0 <= i < rest.len() implies (#[trigger] rest[i]).delivered()
            && !is_last(rest[i].buffer) by {
            assert(rest[i] == events[i + 1]);
        }
        assert(more == received.push(first.buffer));
        lemma_unterminated_response_fails(more, left, rest);
        if remaining.normal() && total_elapsed(events) < remaining.nanos_of() {
            assert(left.nanos_of() == remaining.nanos_of() - first.elapsed.nanos_of());
        }
    }
}

/// A slow response times out: where packets arrive without the
/// last-packet flag and within the bound, the exchange ends with a timeout
/// once the time that the reads took has used up the deadline, however the
/// time is spread over the reads.
pub proof fn lemma_slow_response_times_out(
    received: Seq<Seq<u8>>,
    remaining: Timeout,
    events: Seq<ReadEvent>,
)
    requires
        events.len() > 0,
        received.len() + events.len() <= MAX_RESPONSE_PACKETS,
        forall|i: int|
            0 <= i < events.len() ==> (#[trigger] events[i]).delivered() && !is_last(
                events[i].buffer,
            ),
        total_elapsed(events) >= remaining.nanos_of(),
    ensures
        after_reads(received, remaining, events) == (
            ExchangeState::Idle,
            StepView::Done(Err(ErrorView::Timeout)),
        ),
    decreases events.len(),
{
    let first = events[0];
    let next = read_spec(received, remaining, first.outcome, first.buffer, first.elapsed);
    assert(first.delivered());
    remaining.lemma_less_bounds(first.elapsed);
    if next.0 is AwaitingResponse {
        let more = next.0->received;
        let left = next.0->remaining;
        let rest = events.drop_first();
        assert forall|i: int| 0 <= i < rest.len() implies (#[trigger] rest[i]).delivered()
            && !is_last(rest[i].buffer) by {
            assert(rest[i] == events[i + 1]);
        }
        assert(more == received.push(first.buffer));
        if rest.len() == 0 {
            assert(total_elapsed(rest) == 0);
        }
        lemma_slow_response_times_out(more, left, rest);
    }
}

/// The six length bits of a header never declare more than 63 bytes.
proof fn lemma_declared_fits(header: u8)
    by (bit_vector)
    ensures
        header & 0x3Fu8 <= 63,
{
}

/// A full-sized packet always holds what its header declares.
pub proof fn lemma_full_packet_well_formed(packet: Seq<u8>)
    requires
        packet.len() == PACKET_SIZE,
    ensures
        well_formed(packet),
{
    lemma_declared_fits(packet[0]);
}

/// Full-sized packets of which only the final one is flagged as last
/// always decode.
pub proof fn lemma_response_decodes(received: Seq<Seq<u8>>, buffer: Seq<u8>)
    requires
        received.len() <= MAX_RESPONSE_PACKETS,
        forall|i: int|
            0 <= i < received.len() ==> (#[trigger] received[i]).len() == PACKET_SIZE && !is_last(
                received[i],
            ),
        buffer.len() == PACKET_SIZE,
        is_last(buffer),
    ensures
        unframe_spec(received.push(buffer)) is Ok,
    decreases received.len(),
{
    let all = received.push(buffer);
    lemma_full_packet_well_formed(all[0]);
    if received.len() > 0 {
        let rest = received.drop_first();
        assert forall|i: int| 0 <= i < rest.len() implies (#[trigger] rest[i]).len() == PACKET_SIZE
            && !is_last(rest[i]) by {
            assert(rest[i] == received[i + 1]);
        }
        lemma_response_decodes(rest, buffer);
        assert(all.drop_first() =~= rest.push(buffer));
        assert(all[0] == received[0]);
    }
}

/// A request within the largest message size never takes more than 66
/// packets, each of the packet size.
pub proof fn lemma_request_packets_bounded(request: Seq<u8>)
    requires
        request.len() <= MAX_MSG_SIZE,
    ensures
        1 <= frame_spec(request, PACKET_SIZE as nat).len() <= 66,
        forall|i: int|
            0 <= i < frame_spec(request, PACKET_SIZE as nat).len() ==> (#[trigger] frame_spec(
                request,
                PACKET_SIZE as nat,
            )[i]).len() == PACKET_SIZE,
{
    lemma_frame_shape(request, PACKET_SIZE as nat);
}

} // verus!
