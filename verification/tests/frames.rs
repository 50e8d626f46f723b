use tickradio::frame::{
    build_frame, is_sent_by, readdress, FrameBuf, TxOptions, TxRate, TxRequest, FRAME_CAP, HDR,
};
use tickradio::role::{Role, RECEIVER_MAC, SENDER_MAC};

const A: [u8; 6] = [1, 2, 3, 4, 5, 6];
const B: [u8; 6] = [11, 12, 13, 14, 15, 16];

#[test]
fn build_frame_lays_out_header_and_payload() {
    let mut buf = [0xEEu8; 30];
    let len = build_frame(&A, &B, &[0xA5, 0x5A], &mut buf);
    assert_eq!(len, 26);
    assert_eq!(
        buf,
        [
            0x08, 0, 0, 0, 1, 2, 3, 4, 5, 6, 11, 12, 13, 14, 15, 16, 1, 2, 3, 4, 5, 6, 0, 0, 0xA5,
            0x5A, 0xEE, 0xEE, 0xEE, 0xEE
        ]
    );
}

#[test]
fn build_frame_without_payload_fills_a_header() {
    let mut buf = [0xEEu8; 24];
    assert_eq!(build_frame(&A, &B, &[], &mut buf), HDR);
    assert_eq!(buf[22..24], [0, 0]);
    assert_eq!(buf[16..22], A);
}

#[test]
fn build_frame_fills_a_buffer_to_the_brim() {
    let payload = [7u8; 232];
    let frame = FrameBuf::data(&A, &B, &payload);
    assert_eq!(frame.len, FRAME_CAP);
    assert_eq!(frame.bytes[24..], payload);
}

#[test]
fn source_is_read_from_bytes_ten_to_fifteen() {
    let frame = FrameBuf::data(&A, &B, &[]);
    assert!(is_sent_by(&frame.bytes[..24], &B));
    assert!(!is_sent_by(&frame.bytes[..24], &A));
    assert!(is_sent_by(&frame.bytes[..16], &B));
    assert!(!is_sent_by(&frame.bytes[..15], &B));
    assert!(!is_sent_by(&[], &B));
    let mut other = frame.bytes;
    other[15] ^= 1;
    assert!(!is_sent_by(&other, &B));
}

#[test]
fn readdress_sets_two_addresses_only() {
    let frame = FrameBuf::data(&A, &B, &[1, 2, 3]);
    let mut back = frame.bytes[..frame.len].to_vec();
    readdress(&mut back, &B, &A);
    assert_eq!(back.len(), 27);
    assert_eq!(back[..4], frame.bytes[..4]);
    assert_eq!(back[4..10], B);
    assert_eq!(back[10..16], A);
    assert_eq!(back[16..], frame.bytes[16..27]);
}

#[test]
fn readdress_takes_the_shortest_frame() {
    let mut mpdu = [9u8; 16];
    readdress(&mut mpdu, &B, &A);
    assert_eq!(mpdu, [9, 9, 9, 9, 11, 12, 13, 14, 15, 16, 1, 2, 3, 4, 5, 6]);
}

#[test]
fn readdress_keeps_a_long_frame_whole() {
    let long: Vec<u8> = (0..1600u32).map(|i| i as u8).collect();
    let mut back = long.clone();
    readdress(&mut back, &A, &B);
    assert_eq!(back.len(), 1600);
    assert_eq!(back[..4], long[..4]);
    assert_eq!(back[4..10], A);
    assert_eq!(back[10..16], B);
    assert_eq!(back[16..], long[16..]);
}

#[test]
fn requests_leave_the_sequence_number_to_the_radio() {
    let request = TxRequest::new(FrameBuf::data(&A, &B, &[5]));
    assert_eq!(request.frame.len, 25);
    for options in [request.options, TxOptions::usual()] {
        assert!(options.override_seq_num);
        assert!(matches!(options.rate, TxRate::OneMbpsLong));
    }
}

#[test]
fn boards_are_each_others_peer() {
    assert_eq!(SENDER_MAC, [0x02, 0, 0, 0, 0, 1]);
    assert_eq!(RECEIVER_MAC, [0x02, 0, 0, 0, 0, 2]);
    assert_eq!(Role::Sender.my_mac(), SENDER_MAC);
    assert_eq!(Role::Sender.peer_mac(), RECEIVER_MAC);
    assert_eq!(Role::Receiver.my_mac(), RECEIVER_MAC);
    assert_eq!(Role::Receiver.peer_mac(), SENDER_MAC);
    assert_eq!(SENDER_MAC[0] & 0x03, 0x02);
}
