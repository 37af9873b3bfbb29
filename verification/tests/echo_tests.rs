use hermit_server::clock::Clock;
use hermit_server::echo::{build_echo_response, classify_header, echo_reply, i64_to_le_bytes, HeaderAction};

#[test]
fn zero_length_header_means_close() {
    assert_eq!(classify_header(&[0, 0, 0, 0]), HeaderAction::Close);
}

#[test]
fn nonzero_header_announces_payload() {
    assert_eq!(classify_header(&[5, 0, 0, 0]), HeaderAction::ReadPayload(5));
    assert_eq!(classify_header(&[0, 1, 0, 0]), HeaderAction::ReadPayload(256));
    assert_eq!(
        classify_header(&[0xFF, 0xFF, 0xFF, 0xFF]),
        HeaderAction::ReadPayload(u32::MAX)
    );
}

#[test]
fn timestamp_encoding_is_little_endian_twos_complement() {
    assert_eq!(i64_to_le_bytes(0), 0i64.to_le_bytes().to_vec());
    assert_eq!(i64_to_le_bytes(1), 1i64.to_le_bytes().to_vec());
    assert_eq!(i64_to_le_bytes(-1), vec![0xFF; 8]);
    assert_eq!(
        i64_to_le_bytes(0x0102_0304_0506_0708),
        0x0102_0304_0506_0708i64.to_le_bytes().to_vec()
    );
    assert_eq!(i64_to_le_bytes(i64::MIN), i64::MIN.to_le_bytes().to_vec());
    assert_eq!(i64_to_le_bytes(i64::MAX), i64::MAX.to_le_bytes().to_vec());
}

#[test]
fn echo_response_embeds_timestamps_and_payload() {
    let resp = build_echo_response(7, 9, b"hello");
    assert_eq!(resp.len(), 21);
    assert_eq!(&resp[0..8], &7i64.to_le_bytes());
    assert_eq!(&resp[8..16], &9i64.to_le_bytes());
    assert_eq!(&resp[16..], b"hello");
}

#[test]
fn echo_response_with_empty_payload_is_just_timestamps() {
    let resp = build_echo_response(-2, 3, b"");
    assert_eq!(resp.len(), 16);
    assert_eq!(&resp[0..8], &(-2i64).to_le_bytes());
    assert_eq!(&resp[8..16], &3i64.to_le_bytes());
}

#[test]
fn echo_round_trip_timestamps_are_ordered() {
    let mut clock = Clock::new();
    let recv_ns = clock.now_ns();
    let resp = echo_reply(&mut clock, recv_ns, b"hello");
    assert_eq!(resp.len(), 21);
    assert_eq!(&resp[16..], b"hello");
    let echoed_recv = i64::from_le_bytes(resp[0..8].try_into().unwrap());
    let echoed_send = i64::from_le_bytes(resp[8..16].try_into().unwrap());
    assert_eq!(echoed_recv, recv_ns);
    assert!(echoed_recv <= echoed_send);
}
