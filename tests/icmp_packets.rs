use ping_agent::icmp::{build_request, classify_reply, next_seq, ReplyVerdict, PING_PACKET_LEN};

#[test]
fn request_has_echo_header_and_padding() {
    let req = build_request(0x1234, PING_PACKET_LEN);
    assert_eq!(req.len(), 64);
    assert_eq!(&req[..8], &[8u8, 0, 0, 0, 0, 0, 0x12, 0x34]);
    assert!(req[8..].iter().all(|b| *b == 1));
}

#[test]
fn request_of_header_length_has_no_padding() {
    let req = build_request(7, 8);
    assert_eq!(req, vec![8u8, 0, 0, 0, 0, 0, 0, 7]);
}

#[test]
fn matching_reply_completes_probe() {
    let reply = build_request(42, PING_PACKET_LEN);
    assert_eq!(classify_reply(&reply, 64, 64, 42), ReplyVerdict::Matched);
}

#[test]
fn stale_reply_with_previous_sequence_is_ignored() {
    let reply = build_request(41, PING_PACKET_LEN);
    assert_eq!(classify_reply(&reply, 64, 64, 42), ReplyVerdict::Stale { seq: 41 });
}

#[test]
fn short_reply_is_ignored() {
    let reply = build_request(42, PING_PACKET_LEN);
    assert_eq!(classify_reply(&reply, 20, 64, 42), ReplyVerdict::WrongLength { received: 20 });
}

#[test]
fn sequence_counter_skips_zero_and_wraps() {
    assert_eq!(next_seq(0), 1);
    assert_eq!(next_seq(1), 2);
    assert_eq!(next_seq(65534), 65535);
    assert_eq!(next_seq(65535), 1);
}

#[test]
fn sequence_counter_is_never_zero_over_a_full_cycle() {
    let mut seq: u16 = 1;
    for _ in 0..(65535u32 * 2) {
        seq = next_seq(seq);
        assert_ne!(seq, 0);
    }
    assert_eq!(seq, 1);
}
