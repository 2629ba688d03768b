//! What holds between encoding and decoding of framed messages.

use crate::error::ErrorView;
use crate::protocol::framing::{
    declared_len, frame_chunks, frame_spec, header_byte, is_last, packet_of, payload_of,
    unframe_rest, unframe_spec, well_formed,
};
use vstd::prelude::*;

verus! {

/// A header byte made of a length below 64 keeps the length in its low six
/// bits and the flag in its top bit.
proof fn lemma_header_bits(len: u8)
    by (bit_vector)
    requires
        len <= 63,
    ensures
        (len | 0x80u8) & 0x3Fu8 == len,
        (len | 0x80u8) & 0x80u8 != 0,
        len & 0x3Fu8 == len,
        len & 0x80u8 == 0,
{
}

/// A packet built from a chunk shorter than 64 bytes that fits the packet
/// size is well formed and gives back its chunk and its flag.
pub proof fn lemma_packet_of_reads_back(chunk: Seq<u8>, last: bool, packet_size: nat)
    requires
        chunk.len() <= 63,
        chunk.len() + 1 <= packet_size,
    ensures
        packet_of(chunk, last, packet_size).len() == packet_size,
        well_formed(packet_of(chunk, last, packet_size)),
        declared_len(packet_of(chunk, last, packet_size)) == chunk.len(),
        is_last(packet_of(chunk, last, packet_size)) == last,
        payload_of(packet_of(chunk, last, packet_size)) == chunk,
{
    let packet = packet_of(chunk, last, packet_size);
    let low = (chunk.len() as usize) as u8;
    assert(low == chunk.len());
    lemma_header_bits(low);
    assert(packet[0] == header_byte(chunk.len(), last));
    assert(packet.subrange(1, 1 + chunk.len() as int) =~= chunk);
}

/// Decoding the packets of a non-empty payload gives the payload back.
proof fn lemma_unframe_frame_chunks(data: Seq<u8>, packet_size: nat)
    requires
        packet_size >= 2,
        data.len() > 0,
        packet_size <= 64 || data.len() <= 63,
    ensures
        unframe_rest(frame_chunks(data, packet_size)) == Ok::<Seq<u8>, ErrorView>(data),
    decreases data.len(),
{
    let room = packet_size - 1;
    if data.len() <= room {
        lemma_packet_of_reads_back(data, true, packet_size);
    } else {
        let head = data.take(room);
        let tail = data.skip(room);
        let first = packet_of(head, false, packet_size);
        let rest = frame_chunks(tail, packet_size);
        lemma_packet_of_reads_back(head, false, packet_size);
        lemma_unframe_frame_chunks(tail, packet_size);
        let all = seq![first] + rest;
        assert(all[0] == first);
        assert(all.drop_first() =~= rest);
        assert(head + tail =~= data);
    }
}

/// Framing followed by unframing is the identity: for every payload and
/// every packet size from 2 to 64, decoding the encoded packets succeeds
/// with the payload. The same holds at larger packet sizes for payloads
/// shorter than 64 bytes, whose single chunk still fits the six length bits
/// of the header.
pub proof fn lemma_unframe_frame(data: Seq<u8>, packet_size: nat)
    requires
        packet_size >= 2,
        packet_size <= 64 || data.len() <= 63,
    ensures
        unframe_spec(frame_spec(data, packet_size)) == Ok::<Seq<u8>, ErrorView>(data),
{
    if data.len() == 0 {
        let only = Seq::new(packet_size, |i: int| 0x80u8);
        let packets = seq![only];
        assert(only[0] == 0x80u8);
        assert(0x80u8 & 0x3Fu8 == 0 && 0x80u8 & 0x80u8 != 0) by (bit_vector);
        assert(packets[0] == only);
        assert(payload_of(only) =~= data);
    } else {
        lemma_unframe_frame_chunks(data, packet_size);
    }
}

/// Every packet that framing produces has exactly `packet_size` bytes, and
/// a payload of `n > 0` bytes takes `ceil(n / (packet_size - 1))` packets.
pub proof fn lemma_frame_shape(data: Seq<u8>, packet_size: nat)
    requires
        packet_size >= 2,
    ensures
        frame_spec(data, packet_size).len() == if data.len() == 0 {
            1
        } else {
            (data.len() + packet_size - 2) / (packet_size - 1)
        },
        forall|i: int|
            0 <= i < frame_spec(data, packet_size).len() ==> (#[trigger] frame_spec(
                data,
                packet_size,
            )[i]).len() == packet_size,
    decreases data.len(),
{
    let room = packet_size - 1;
    if data.len() == 0 {
    } else if data.len() <= room {
        assert((data.len() + room - 1) / room == 1) by (nonlinear_arith)
            requires
                0 < data.len() <= room,
        ;
    } else {
        let tail = data.skip(room);
        lemma_frame_shape(tail, packet_size);
        assert((data.len() + room - 1) / room == (tail.len() + room - 1) / room + 1)
            by (nonlinear_arith)
            requires
                room > 0,
                tail.len() == data.len() - room,
        ;
        let first = packet_of(data.take(room), false, packet_size);
        let rest = frame_chunks(tail, packet_size);
        assert forall|i: int| 0 <= i < (seq![first] + rest).len() implies (#[trigger] (seq![first]
            + rest)[i]).len() == packet_size by {
            if i > 0 {
                assert((seq![first] + rest)[i] == frame_spec(tail, packet_size)[i - 1]);
            }
        }
    }
}

/// Packets that never flag the end cannot be decoded: a non-empty list in
/// which no packet carries the last-packet flag fails with invalid data.
pub proof fn lemma_unframe_without_last(packets: Seq<Seq<u8>>)
    requires
        packets.len() > 0,
        forall|i: int| 0 <= i < packets.len() && packets[i].len() > 0 ==> !is_last(packets[i]),
    ensures
        unframe_spec(packets) is Err,
        unframe_spec(packets)->Err_0 is InvalidData,
{
    lemma_unframe_rest_without_last(packets);
}

proof fn lemma_unframe_rest_without_last(packets: Seq<Seq<u8>>)
    requires
        forall|i: int| 0 <= i < packets.len() && packets[i].len() > 0 ==> !is_last(packets[i]),
    ensures
        unframe_rest(packets) is Err,
        unframe_rest(packets)->Err_0 is InvalidData,
    decreases packets.len(),
{
    if packets.len() > 0 && well_formed(packets[0]) {
        let rest = packets.drop_first();
        assert forall|i: int| 0 <= i < rest.len() && rest[i].len() > 0 implies !is_last(
            rest[i],
        ) by {
            assert(rest[i] == packets[i + 1]);
        }
        lemma_unframe_rest_without_last(rest);
    }
}

/// A packet that declares more payload than it holds makes decoding fail
/// with invalid data, provided no packet before it ends the message.
pub proof fn lemma_unframe_overlong(packets: Seq<Seq<u8>>, k: int)
    requires
        0 <= k < packets.len(),
        packets[k].len() > 0,
        declared_len(packets[k]) > packets[k].len() - 1,
        forall|j: int| 0 <= j < k && well_formed(packets[j]) ==> !is_last(packets[j]),
    ensures
        unframe_spec(packets) is Err,
        unframe_spec(packets)->Err_0 is InvalidData,
    decreases k,
{
    if k > 0 && well_formed(packets[0]) {
        let rest = packets.drop_first();
        assert(rest[k - 1] == packets[k]);
        assert forall|j: int| 0 <= j < k - 1 && well_formed(rest[j]) implies !is_last(rest[j]) by {
            assert(rest[j] == packets[j + 1]);
        }
        lemma_unframe_overlong(rest, k - 1);
    }
}

} // verus!
