use hidraw_rs::protocol::{frame_packets, unframe_packets};
use hidraw_rs::{Error, Result};

fn bytes(n: usize) -> Vec<u8> {
    (0..n).map(|i| (i % 251) as u8 + 1).collect()
}

#[test]
fn test_frame_single_packet() -> Result<()> {
    let data = vec![1, 2, 3, 4, 5];
    let packets = frame_packets(&data, 64);

    assert_eq!(packets.len(), 1);
    assert_eq!(packets[0][0], 0x85); // Length 5 + last packet flag
    assert_eq!(&packets[0][1..6], &data[..]);

    Ok(())
}

#[test]
fn test_frame_multiple_packets() -> Result<()> {
    let data = vec![0u8; 100];
    let packets = frame_packets(&data, 64);

    assert_eq!(packets.len(), 2);
    assert_eq!(packets[0][0], 63); // Full packet, not last
    assert_eq!(packets[1][0], 0x80 | 37); // 37 bytes + last flag

    Ok(())
}

#[test]
fn test_unframe_packets() -> Result<()> {
    let payload = vec![1, 2, 3, 4, 5];
    let packets = frame_packets(&payload, 64);
    let unframed = unframe_packets(&packets)?;

    assert_eq!(unframed, payload);

    Ok(())
}

#[test]
fn frame_empty_is_one_flag_packet() {
    let packets = frame_packets(&[], 64);
    assert_eq!(packets.len(), 1);
    assert_eq!(packets[0].len(), 64);
    assert_eq!(packets[0][0], 0x80);
    assert_eq!(packets[0], vec![0x80u8; 64]);
}

#[test]
fn frame_pads_with_zeros() {
    let packets = frame_packets(&[9, 8, 7], 8);
    assert_eq!(packets, vec![vec![0x83, 9, 8, 7, 0, 0, 0, 0]]);
}

#[test]
fn frame_three_packets() {
    let data = bytes(150);
    let packets = frame_packets(&data, 64);
    assert_eq!(packets.len(), 3);
    assert_eq!(packets[0][0], 63);
    assert_eq!(packets[1][0], 63);
    assert_eq!(packets[2][0], 0x80 | 24);
    assert_eq!(&packets[0][1..], &data[..63]);
    assert_eq!(&packets[1][1..], &data[63..126]);
    assert_eq!(&packets[2][1..25], &data[126..]);
    for packet in &packets {
        assert_eq!(packet.len(), 64);
    }
}

#[test]
fn frame_exact_multiple_has_no_empty_tail() {
    let data = bytes(126);
    let packets = frame_packets(&data, 64);
    assert_eq!(packets.len(), 2);
    assert_eq!(packets[0][0], 63);
    assert_eq!(packets[1][0], 0x80 | 63);
}

#[test]
fn frame_smallest_packet_size() {
    let packets = frame_packets(&[5, 6, 7], 2);
    assert_eq!(packets, vec![vec![1, 5], vec![1, 6], vec![0x81, 7]]);
    assert_eq!(unframe_packets(&packets).unwrap(), vec![5, 6, 7]);
}

#[test]
fn round_trip_for_sizes_up_to_64() {
    for size in 2..=64usize {
        for len in [0usize, 1, 2, 62, 63, 64, 65, 126, 127, 200] {
            let data = bytes(len);
            let packets = frame_packets(&data, size);
            assert_eq!(unframe_packets(&packets).unwrap(), data, "size {size} len {len}");
        }
    }
}

#[test]
fn round_trip_short_payload_at_large_packet_size() {
    let data = bytes(63);
    let packets = frame_packets(&data, 100);
    assert_eq!(packets.len(), 1);
    assert_eq!(packets[0].len(), 100);
    assert_eq!(unframe_packets(&packets).unwrap(), data);
}

#[test]
fn large_packet_size_truncates_the_length() {
    // 99 bytes in one packet of 100: the header keeps the low bits only.
    let data = bytes(99);
    let packets = frame_packets(&data, 100);
    assert_eq!(packets.len(), 1);
    assert_eq!(packets[0][0], 99 | 0x80);
    let back = unframe_packets(&packets).unwrap();
    assert_eq!(back, data[..(99 & 0x3F)].to_vec());
}

#[test]
fn header_length_wraps_beyond_a_byte() {
    let data = bytes(300);
    let packets = frame_packets(&data, 301);
    assert_eq!(packets.len(), 1);
    assert_eq!(packets[0][0], (300 % 256) as u8 | 0x80);
}

#[test]
fn unframe_nothing_is_empty() {
    let packets: Vec<Vec<u8>> = Vec::new();
    assert_eq!(unframe_packets(&packets).unwrap(), Vec::<u8>::new());
}

#[test]
fn unframe_rejects_empty_packet() {
    let packets = vec![Vec::<u8>::new()];
    match unframe_packets(&packets) {
        Err(Error::InvalidData(message)) => assert_eq!(message, "Empty packet"),
        other => panic!("unexpected: {other:?}"),
    }
}

#[test]
fn unframe_rejects_missing_last_packet() {
    let packets = vec![vec![2u8, 1, 2], vec![1u8, 3, 0]];
    match unframe_packets(&packets) {
        Err(Error::InvalidData(message)) => assert_eq!(message, "No last packet marker found"),
        other => panic!("unexpected: {other:?}"),
    }
}

#[test]
fn unframe_rejects_overlong_length() {
    let packets = vec![vec![0x85u8, 1, 2]];
    match unframe_packets(&packets) {
        Err(Error::InvalidData(message)) => {
            assert_eq!(message, "Packet length 5 exceeds available data 2")
        }
        other => panic!("unexpected: {other:?}"),
    }
}

#[test]
fn unframe_stops_at_first_last_packet() {
    // What follows the last packet is not looked at, malformed or not.
    let packets = vec![vec![0x81u8, 7, 0], vec![0x3Fu8, 1], Vec::new()];
    assert_eq!(unframe_packets(&packets).unwrap(), vec![7]);
}

#[test]
fn unframe_ignores_padding_and_reserved_bit() {
    let packets = vec![vec![0x42u8, 1, 2, 0xEE], vec![0xC1u8, 3, 0xFF, 0xFF]];
    assert_eq!(unframe_packets(&packets).unwrap(), vec![1, 2, 3]);
}
