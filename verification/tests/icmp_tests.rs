use kernel_core::icmp::PING_IDENT;
use kernel_core::icmp::PingReply;
use kernel_core::icmp::build_ping_request;
use kernel_core::icmp::handle_ping_reply;
use kernel_core::icmp::make_echo_payload;
use kernel_core::icmp::ping_reply_summary;
use smoltcp::phy::ChecksumCapabilities;
use smoltcp::wire::Icmpv4Packet;
use smoltcp::wire::Icmpv4Repr;

#[test]
fn echo_payload_carries_timestamp_then_ff() {
    let p = make_echo_payload(0x0102_0304_0506_0708);
    assert_eq!(p.len(), 40);
    assert_eq!(&p[..8], &[1, 2, 3, 4, 5, 6, 7, 8]);
    assert!(p[8..].iter().all(|&b| b == 0xFF));
}

#[test]
fn ping_request_encodes_like_the_protocol_engine() {
    let now_ms: i64 = 12_345;
    let req = build_ping_request(2, now_ms);
    assert_eq!(req.len(), 48);
    // Decode it back with the protocol engine: everything must round-trip.
    let packet = Icmpv4Packet::new_checked(req.as_slice()).unwrap();
    let repr = Icmpv4Repr::parse(&packet, &ChecksumCapabilities::default()).unwrap();
    match repr {
        Icmpv4Repr::EchoRequest { ident, seq_no, data } => {
            assert_eq!(ident, PING_IDENT);
            assert_eq!(seq_no, 2);
            assert_eq!(data, make_echo_payload(now_ms).as_slice());
        }
        _ => panic!("expected an echo request"),
    }
}

fn encode_reply(ident: u16, seq_no: u16, data: &[u8]) -> Vec<u8> {
    let repr = Icmpv4Repr::EchoReply { ident, seq_no, data };
    let mut buf = vec![0u8; repr.buffer_len()];
    let mut packet = Icmpv4Packet::new_unchecked(buf.as_mut_slice());
    repr.emit(&mut packet, &ChecksumCapabilities::default());
    buf
}

#[test]
fn reply_summary_computes_round_trip() {
    let payload = make_echo_payload(1_000);
    let r = ping_reply_summary(3, &payload, 1_042);
    assert_eq!(r, PingReply { bytes: 48, seq_no: 3, time_ms: 42 });
}

#[test]
fn handle_reply_decodes_and_times() {
    let payload = make_echo_payload(2_000);
    let wire = encode_reply(PING_IDENT, 1, payload.as_slice());
    // The reply on the wire is not the payload itself: the handler must
    // really decode it.
    assert_ne!(wire, payload);
    let r = handle_ping_reply(&wire, 2_077).unwrap();
    assert_eq!(r.bytes, 48);
    assert_eq!(r.seq_no, 1);
    assert_eq!(r.time_ms, 77);
}

#[test]
fn handle_reply_rejects_garbage() {
    assert!(handle_ping_reply(&vec![], 100).is_none());
    assert!(handle_ping_reply(&vec![0u8; 48], 100).is_none());
    // A corrupted checksum must be rejected.
    let mut wire = encode_reply(PING_IDENT, 0, make_echo_payload(10).as_slice());
    wire[2] ^= 0xFF;
    assert!(handle_ping_reply(&wire, 100).is_none());
    // An echo request is not a reply.
    let req = build_ping_request(0, 10);
    assert!(handle_ping_reply(&req, 100).is_none());
    // A timestamp from the future is not a plausible send time.
    let late = encode_reply(PING_IDENT, 0, make_echo_payload(500).as_slice());
    assert!(handle_ping_reply(&late, 400).is_none());
}

#[test]
fn session_sends_four_requests_a_second_apart() {
    let mut s = kernel_core::icmp::PingSession::new();
    let mut seqs = Vec::new();
    let mut pauses = Vec::new();
    while let Some(req) = s.next_request(5_000) {
        let packet = Icmpv4Packet::new_checked(req.as_slice()).unwrap();
        seqs.push(packet.echo_seq_no());
        pauses.push(s.pause_before_next());
    }
    // Exactly four requests, sequence numbers in order, a one-second
    // pause after each but the last.
    assert_eq!(seqs, vec![0, 1, 2, 3]);
    assert_eq!(pauses, vec![Some(1000), Some(1000), Some(1000), None]);
    assert!(s.next_request(9_000).is_none());
}

#[test]
fn four_pings_sequence_numbers() {
    // The ping command sends ident 0x22b with sequence numbers 0 to 3.
    assert_eq!(PING_IDENT, 0x22b);
    for seq in 0..kernel_core::icmp::PING_COUNT {
        let req = build_ping_request(seq, 0);
        let packet = Icmpv4Packet::new_checked(req.as_slice()).unwrap();
        assert_eq!(packet.echo_seq_no(), seq);
        assert_eq!(packet.echo_ident(), 0x22b);
    }
}
