use ntscrs_android::packets::{
    c_flag, encode_capacity, encoded_packet, frame_packet, header_packet,
};

#[test]
fn frame_packet_layout() {
    let packet = frame_packet(640, -2, 0x0102030405060708, &[9, 10, 11, 12]);
    assert_eq!(
        packet,
        [
            0x80, 2, 0, 0, 0xfe, 0xff, 0xff, 0xff, 8, 7, 6, 5, 4, 3, 2, 1, 9, 10, 11, 12
        ]
    );
}

#[test]
fn frame_packet_reads_back() {
    for (w, h, pts) in [(0, 0, 0), (2, 4, -1), (i32::MAX, i32::MIN, i64::MIN)] {
        let packet = frame_packet(w, h, pts, b"pixels");
        assert_eq!(i32::from_le_bytes(packet[0..4].try_into().unwrap()), w);
        assert_eq!(i32::from_le_bytes(packet[4..8].try_into().unwrap()), h);
        assert_eq!(i64::from_le_bytes(packet[8..16].try_into().unwrap()), pts);
        assert_eq!(&packet[16..], b"pixels");
    }
}

#[test]
fn encoded_packet_layout() {
    let data = [0, 0, 0, 1, 0x67, 99, 99];
    let packet = encoded_packet(5, &data, 3, -1);
    assert_eq!(i64::from_le_bytes(packet[0..8].try_into().unwrap()), 3);
    assert_eq!(i64::from_le_bytes(packet[8..16].try_into().unwrap()), -1);
    assert_eq!(packet[16..], [0, 0, 0, 1, 0x67]);
    assert_eq!(packet.len(), 21);
}

#[test]
fn encoder_without_output_gives_an_empty_packet() {
    assert!(encoded_packet(0, &[1, 2], 3, 4).is_empty());
    assert!(encoded_packet(-1, &[1, 2], 3, 4).is_empty());
}

#[test]
fn capacities() {
    assert_eq!(encode_capacity(None), 1 << 20);
    assert_eq!(encode_capacity(Some(0)), 65536);
    assert_eq!(encode_capacity(Some(160 * 96 * 3 / 2)), 160 * 96 * 4 + 65536);
    assert_eq!(encode_capacity(Some(1)), 2 + 65536);
}

#[test]
fn headers() {
    assert_eq!(header_packet(0, 3, vec![1, 2, 3, 4]), [1, 2, 3]);
    assert_eq!(header_packet(0, 9, vec![1, 2, 3, 4]), [1, 2, 3, 4]);
    assert!(header_packet(-1, 3, vec![1, 2, 3, 4]).is_empty());
    assert!(header_packet(1, 3, vec![1, 2, 3, 4]).is_empty());
    assert!(header_packet(0, 0, vec![1, 2, 3, 4]).is_empty());
    assert!(header_packet(0, -4, vec![1, 2, 3, 4]).is_empty());
}

#[test]
fn flags_are_zero_or_one() {
    assert_eq!((c_flag(0), c_flag(1), c_flag(255)), (0, 1, 1));
}
