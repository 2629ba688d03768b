//! Message framing for multi-packet HID communication

use crate::error::{Error, ErrorView, Result};
use crate::text::{decimal, usize_to_decimal};
use vstd::prelude::*;
use vstd::string::*;

verus! {

/// Default HID packet size (64 bytes is common for USB HID)
pub const DEFAULT_PACKET_SIZE: usize = 64;

/// Header bit that marks the last packet of a message.
pub const LAST_PACKET_FLAG: u8 = 0x80;

/// Header bits that carry the payload length of a packet.
pub const LENGTH_MASK: u8 = 0x3F;

/// The packets held by a vector or slice, each as a sequence of bytes.
pub open spec fn packet_seq(packets: Seq<Vec<u8>>) -> Seq<Seq<u8>> {
    Seq::new(packets.len(), |i: int| packets[i]@)
}

/// The outcome of a byte-producing operation, over mathematical values.
pub open spec fn bytes_outcome(r: Result<Vec<u8>>) -> core::result::Result<Seq<u8>, ErrorView> {
    match r {
        Ok(v) => Ok(v@),
        Err(e) => Err(e@),
    }
}

/// Header of a packet with `len` payload bytes: the length, truncated to a
/// byte, with the last-packet flag set where `last` holds.
pub open spec fn header_byte(len: nat, last: bool) -> u8 {
    let low = (len as usize) as u8;
    if last {
        low | 0x80u8
    } else {
        low
    }
}

/// One packet of `packet_size` bytes: header, payload chunk, zero padding.
pub open spec fn packet_of(chunk: Seq<u8>, last: bool, packet_size: nat) -> Seq<u8> {
    seq![header_byte(chunk.len(), last)] + chunk + Seq::new(
        (packet_size - 1 - chunk.len()) as nat,
        |i: int| 0u8,
    )
}

/// The packets of a non-empty payload: chunks of `packet_size - 1` bytes in
/// order, the final one flagged as last.
pub open spec fn frame_chunks(data: Seq<u8>, packet_size: nat) -> Seq<Seq<u8>>
    recommends
        packet_size >= 2,
        data.len() > 0,
    decreases data.len(),
{
    let room = packet_size - 1;
    if room <= 0 || data.len() <= room {
        seq![packet_of(data, true, packet_size)]
    } else {
        seq![packet_of(data.take(room), false, packet_size)] + frame_chunks(
            data.skip(room),
            packet_size,
        )
    }
}

/// The packets that encode `data` at the given packet size. The empty
/// payload is one packet whose every byte is the bare last-packet flag.
pub open spec fn frame_spec(data: Seq<u8>, packet_size: nat) -> Seq<Seq<u8>> {
    if data.len() == 0 {
        seq![Seq::new(packet_size, |i: int| 0x80u8)]
    } else {
        frame_chunks(data, packet_size)
    }
}

/// Payload length that a packet's header declares.
pub open spec fn declared_len(packet: Seq<u8>) -> nat
    recommends
        packet.len() > 0,
{
    (packet[0] & 0x3Fu8) as nat
}

/// Whether a packet's header carries the last-packet flag.
pub open spec fn is_last(packet: Seq<u8>) -> bool
    recommends
        packet.len() > 0,
{
    packet[0] & 0x80u8 != 0
}

/// The payload bytes of a well-formed packet.
pub open spec fn payload_of(packet: Seq<u8>) -> Seq<u8> {
    packet.subrange(1, 1 + declared_len(packet) as int)
}

/// Whether a packet has a header and holds as many bytes as it declares.
pub open spec fn well_formed(packet: Seq<u8>) -> bool {
    packet.len() > 0 && declared_len(packet) <= packet.len() - 1
}

/// Text of the error for a packet that declares more than it holds.
pub open spec fn length_exceeds_message(declared: nat, available: nat) -> Seq<char> {
    "Packet length "@ + decimal(declared) + " exceeds available data "@ + decimal(available)
}

/// The error for a packet that is not well formed.
pub open spec fn packet_fault(packet: Seq<u8>) -> ErrorView
    recommends
        !well_formed(packet),
{
    if packet.len() == 0 {
        ErrorView::InvalidData("Empty packet"@)
    } else {
        ErrorView::InvalidData(
            length_exceeds_message(declared_len(packet), (packet.len() - 1) as nat),
        )
    }
}

/// Decoding of the packets that remain of a message that has not ended:
/// payloads are joined up to and including the first last-flagged packet; a
/// malformed packet before that point, or running out of packets, fails.
pub open spec fn unframe_rest(packets: Seq<Seq<u8>>) -> core::result::Result<Seq<u8>, ErrorView>
    decreases packets.len(),
{
    if packets.len() == 0 {
        Err(ErrorView::InvalidData("No last packet marker found"@))
    } else if !well_formed(packets[0]) {
        Err(packet_fault(packets[0]))
    } else if is_last(packets[0]) {
        Ok(payload_of(packets[0]))
    } else {
        match unframe_rest(packets.drop_first()) {
            Ok(rest) => Ok(payload_of(packets[0]) + rest),
            Err(e) => Err(e),
        }
    }
}

/// Decoding of a packet list. No packets at all decode to the empty payload.
pub open spec fn unframe_spec(packets: Seq<Seq<u8>>) -> core::result::Result<Seq<u8>, ErrorView> {
    if packets.len() == 0 {
        Ok(Seq::empty())
    } else {
        unframe_rest(packets)
    }
}

/// Builds the packet that carries `data[start..start + len]`.
fn build_packet(data: &[u8], start: usize, len: usize, last: bool, packet_size: usize) -> (packet:
    Vec<u8>)
    requires
        packet_size >= 2,
        len <= packet_size - 1,
        start + len <= data@.len(),
    ensures
        packet@ == packet_of(
            data@.subrange(start as int, start + len),
            last,
            packet_size as nat,
        ),
{
    let ghost chunk = data@.subrange(start as int, start + len);
    let mut packet: Vec<u8> = Vec::new();
    let low = #[verifier::truncate] (len as u8);
    let header = if last {
        low | LAST_PACKET_FLAG
    } else {
        low
    };
    packet.push(header);
    let total = data.len();
    let mut i: usize = 0;
    while i < len
        invariant
            i <= len,
            total == data@.len(),
            start + len <= total,
            chunk == data@.subrange(start as int, start + len),
            packet@ == seq![header_byte(len as nat, last)] + chunk.take(i as int),
        decreases len - i,
    {
        packet.push(data[start + i]);
        i = i + 1;
        assert(packet@ =~= seq![header_byte(len as nat, last)] + chunk.take(i as int));
    }
    assert(chunk.take(len as int) =~= chunk);
    let mut j: usize = len + 1;
    while j < packet_size
        invariant
            len + 1 <= j <= packet_size,
            chunk.len() == len,
            packet@ == seq![header_byte(len as nat, last)] + chunk + Seq::new(
                (j - 1 - len) as nat,
                |k: int| 0u8,
            ),
        decreases packet_size - j,
    {
        packet.push(0u8);
        j = j + 1;
        assert(packet@ =~= seq![header_byte(len as nat, last)] + chunk + Seq::new(
            (j - 1 - len) as nat,
            |k: int| 0u8,
        ));
    }
    packet
}

/// Frame data into HID packets
///
/// The first byte of each packet contains:
/// - Bits 0-5: Length of data in this packet (0-63)
/// - Bit 7: Last packet flag (1 if this is the last packet)
///
/// Empty data gives a single packet filled with the bare last-packet flag.
/// Other data is cut into chunks of `packet_size - 1` bytes, one packet
/// each, zero padded.
pub fn frame_packets(data: &[u8], packet_size: usize) -> (packets: Vec<Vec<u8>>)
    requires
        packet_size >= 2 || data@.len() == 0,
    ensures
        packet_seq(packets@) == frame_spec(data@, packet_size as nat),
{
    let mut packets: Vec<Vec<u8>> = Vec::new();
    if data.len() == 0 {
        let mut only: Vec<u8> = Vec::new();
        let mut k: usize = 0;
        while k < packet_size
            invariant
                k <= packet_size,
                only@ == Seq::new(k as nat, |i: int| 0x80u8),
            decreases packet_size - k,
        {
            only.push(LAST_PACKET_FLAG);
            k = k + 1;
            assert(only@ =~= Seq::new(k as nat, |i: int| 0x80u8));
        }
        packets.push(only);
        assert(packet_seq(packets@) =~= frame_spec(data@, packet_size as nat));
        return packets;
    }
    let room = packet_size - 1;
    let mut start: usize = 0;
    proof {
        assert(data@.skip(0) =~= data@);
        assert(packet_seq(packets@) + frame_chunks(data@, packet_size as nat) =~= frame_chunks(
            data@,
            packet_size as nat,
        ));
    }
    while start < data.len()
        invariant
            packet_size >= 2,
            room == packet_size - 1,
            start <= data@.len(),
            data@.len() > 0,
            start < data@.len() ==> frame_chunks(data@, packet_size as nat) == packet_seq(packets@)
                + frame_chunks(data@.skip(start as int), packet_size as nat),
            start == data@.len() ==> frame_chunks(data@, packet_size as nat) == packet_seq(
                packets@,
            ),
        decreases data@.len() - start,
    {
        let remaining = data.len() - start;
        let last = remaining <= room;
        let len = if last {
            remaining
        } else {
            room
        };
        let ghost rest = data@.skip(start as int);
        let ghost before = packet_seq(packets@);
        let packet = build_packet(data, start, len, last, packet_size);
        packets.push(packet);
        proof {
            assert(data@.subrange(start as int, start + len) =~= rest.take(len as int));
            assert(packet_seq(packets@) =~= before + seq![packet@]);
            if last {
                assert(rest.take(len as int) =~= rest);
                assert(before + frame_chunks(rest, packet_size as nat) =~= before + seq![packet@]);
            } else {
                assert(rest.skip(room as int) =~= data@.skip(start + len));
                assert(before + frame_chunks(rest, packet_size as nat) =~= (before + seq![
                    packet@,
                ]) + frame_chunks(data@.skip(start + len), packet_size as nat));
            }
        }
        start = start + len;
    }
    packets
}

/// Puts already decoded bytes in front of what the remaining packets give.
pub open spec fn prepend(acc: Seq<u8>, rest: core::result::Result<Seq<u8>, ErrorView>)
    -> core::result::Result<Seq<u8>, ErrorView> {
    match rest {
        Ok(tail) => Ok(acc + tail),
        Err(e) => Err(e),
    }
}

/// The error for a packet whose header declares more than the packet holds.
fn length_exceeds(declared: usize, available: usize) -> (e: Error)
    ensures
        e@ == ErrorView::InvalidData(length_exceeds_message(declared as nat, available as nat)),
{
    let mut message = String::from_str("Packet length ");
    let declared_text = usize_to_decimal(declared);
    message.append(declared_text.as_str());
    message.append(" exceeds available data ");
    let available_text = usize_to_decimal(available);
    message.append(available_text.as_str());
    Error::InvalidData(message)
}

/// Unframe HID packets back into continuous data
///
/// Packets are read in order up to the first one flagged as last. An empty
/// packet, or one that declares more payload than it holds, is rejected as
/// invalid data, and so is a non-empty list without a last packet.
pub fn unframe_packets(packets: &[Vec<u8>]) -> (r: Result<Vec<u8>>)
    ensures
        bytes_outcome(r) == unframe_spec(packet_seq(packets@)),
{
    let ghost all = packet_seq(packets@);
    let mut data: Vec<u8> = Vec::new();
    if packets.len() == 0 {
        return Ok(data);
    }
    let mut i: usize = 0;
    proof {
        assert(all.skip(0) =~= all);
        match unframe_rest(all) {
            Ok(tail) => {
                assert(data@ + tail =~= tail);
            },
            Err(_) => {},
        }
    }
    while i < packets.len()
        invariant
            i <= packets@.len(),
            packets@.len() > 0,
            all == packet_seq(packets@),
            prepend(data@, unframe_rest(all.skip(i as int))) == unframe_rest(all),
        decreases packets@.len() - i,
    {
        let packet = &packets[i];
        let ghost rest = all.skip(i as int);
        assert(rest[0] == packet@);
        assert(rest.drop_first() =~= all.skip(i + 1));
        if packet.len() == 0 {
            return Err(Error::InvalidData(String::from_str("Empty packet")));
        }
        let header = packet[0];
        let length = (header & LENGTH_MASK) as usize;
        let is_last_packet = (header & LAST_PACKET_FLAG) != 0;
        if length > packet.len() - 1 {
            return Err(length_exceeds(length, packet.len() - 1));
        }
        let ghost before = data@;
        let mut k: usize = 0;
        while k < length
            invariant
                k <= length,
                length + 1 <= packet@.len(),
                data@ == before + packet@.subrange(1, 1 + k),
            decreases length - k,
        {
            data.push(packet[1 + k]);
            k = k + 1;
            assert(data@ =~= before + packet@.subrange(1, 1 + k));
        }
        assert(data@ == before + payload_of(packet@));
        if is_last_packet {
            assert(before + payload_of(packet@) =~= data@);
            return Ok(data);
        }
        proof {
            match unframe_rest(all.skip(i + 1)) {
                Ok(tail) => {
                    assert(before + (payload_of(packet@) + tail) =~= data@ + tail);
                },
                Err(_) => {},
            }
        }
        i = i + 1;
    }
    Err(Error::InvalidData(String::from_str("No last packet marker found")))
}

} // verus!
