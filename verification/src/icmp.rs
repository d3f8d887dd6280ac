//! ICMP echo ("ping") support: payload construction, request encoding, and
//! reply handling.
//!
//! The protocol engine encodes and decodes the ICMPv4 wire format; this
//! module owns everything around those calls: the timestamped payload, the
//! round-trip arithmetic, and the report handed to the shell.
use byteorder::ByteOrder;
use vstd::prelude::*;

verus! {

/// The echo identifier the ping command binds to.
pub const PING_IDENT: u16 = 0x22b;

/// Number of echo requests one ping command sends.
pub const PING_COUNT: u16 = 4;

/// Length of the echo payload.
pub const PING_PAYLOAD_LEN: usize = 40;

/// Milliseconds between successive echo requests.
pub const PING_INTERVAL_MS: u64 = 1000;

/// The big-endian bytes of a signed 64-bit value.
pub open spec fn spec_be_i64_bytes(n: i64) -> Seq<u8> {
    let u = n as u64;
    seq![
        (u >> 56) as u8,
        (u >> 48) as u8,
        (u >> 40) as u8,
        (u >> 32) as u8,
        (u >> 24) as u8,
        (u >> 16) as u8,
        (u >> 8) as u8,
        u as u8,
    ]
}

/// The signed 64-bit value read big-endian from the first eight bytes.
pub open spec fn spec_be_i64_of(bytes: Seq<u8>) -> i64 {
    ((((bytes[0] as u64) << 56) | ((bytes[1] as u64) << 48) | ((bytes[2] as u64) << 40) | ((
    bytes[3] as u64) << 32) | ((bytes[4] as u64) << 24) | ((bytes[5] as u64) << 16) | ((
    bytes[6] as u64) << 8) | (bytes[7] as u64)) as i64)
}

/// Relies on byteorder's `NetworkEndian::write_i64` (network order is big
/// endian): writes the value's eight big-endian bytes at the front of the
/// buffer and touches nothing else.
#[verifier::external_body]
fn write_i64_be(buf: &mut Vec<u8>, n: i64)
    requires
        old(buf)@.len() >= 8,
    ensures
        final(buf)@ == spec_be_i64_bytes(n) + old(buf)@.skip(8),
{
    byteorder::NetworkEndian::write_i64(buf.as_mut_slice(), n);
}

/// Relies on byteorder's `NetworkEndian::read_i64`: reads the first eight
/// bytes as a big-endian signed value.
#[verifier::external_body]
fn read_i64_be(buf: &Vec<u8>) -> (r: i64)
    requires
        buf@.len() >= 8,
    ensures
        r == spec_be_i64_of(buf@),
{
    byteorder::NetworkEndian::read_i64(buf.as_slice())
}

/// What the protocol engine's ICMPv4 encoder produces for an echo request
/// with this identifier, sequence number and payload.
pub uninterp spec fn spec_echo_request_bytes(ident: u16, seq_no: u16, payload: Seq<u8>) -> Seq<u8>;

/// Relies on smoltcp's `Icmpv4Repr::emit` (with `buffer_len` and
/// `Icmpv4Packet::new_unchecked`): encodes an echo request, whose length
/// is the eight-byte echo header plus the payload, into a fresh buffer.
#[verifier::external_body]
fn emit_echo_request(ident: u16, seq_no: u16, payload: &Vec<u8>) -> (r: Vec<u8>)
    ensures
        r@ == spec_echo_request_bytes(ident, seq_no, payload@),
        r@.len() == 8 + payload@.len(),
{
    let repr = smoltcp::wire::Icmpv4Repr::EchoRequest {
        ident,
        seq_no,
        data: payload.as_slice(),
    };
    let mut buf: Vec<u8> = vec![0; repr.buffer_len()];
    let mut packet = smoltcp::wire::Icmpv4Packet::new_unchecked(buf.as_mut_slice());
    repr.emit(&mut packet, &smoltcp::phy::ChecksumCapabilities::default());
    buf
}

/// What the protocol engine's ICMPv4 parser extracts from these bytes when
/// they are a checksum-valid echo reply: its identifier, sequence number
/// and payload.
pub uninterp spec fn spec_parse_echo_reply(data: Seq<u8>) -> Option<(u16, u16, Seq<u8>)>;

/// Relies on smoltcp's `Icmpv4Repr::parse` (with
/// `Icmpv4Packet::new_checked`), which checks lengths and the checksum:
/// decodes an echo reply, and rejects anything else.  An echo reply's
/// payload is what follows its eight-byte header, so the payload is
/// eight bytes shorter than the packet.
#[verifier::external_body]
fn parse_echo_reply(data: &Vec<u8>) -> (r: Option<(u16, u16, Vec<u8>)>)
    ensures
        (r is Some) == (spec_parse_echo_reply(data@) is Some),
        r matches Some(t) ==> spec_parse_echo_reply(data@) == Some((t.0, t.1, t.2@)) && t.2@.len()
            + 8 == data@.len(),
{
    match smoltcp::wire::Icmpv4Packet::new_checked(data.as_slice()) {
        Ok(packet) => match smoltcp::wire::Icmpv4Repr::parse(
            &packet,
            &smoltcp::phy::ChecksumCapabilities::default(),
        ) {
            Ok(smoltcp::wire::Icmpv4Repr::EchoReply { ident, seq_no, data }) => Some(
                (ident, seq_no, data.to_vec()),
            ),
            _ => None,
        },
        Err(_) => None,
    }
}

/// The ping payload at send time `now_ms`: forty bytes of 0xFF with the
/// first eight overwritten by the timestamp, big-endian.
pub open spec fn spec_ping_payload(now_ms: i64) -> Seq<u8> {
    spec_be_i64_bytes(now_ms) + Seq::new((PING_PAYLOAD_LEN - 8) as nat, |i: int| 0xFFu8)
}

/// Build the echo payload for a request sent at `now_ms`.
pub fn make_echo_payload(now_ms: i64) -> (p: Vec<u8>)
    ensures
        p@ == spec_ping_payload(now_ms),
        p@.len() == PING_PAYLOAD_LEN,
{
    let mut p: Vec<u8> = Vec::new();
    let mut i: usize = 0;
    while i < PING_PAYLOAD_LEN
        invariant
            i <= PING_PAYLOAD_LEN,
            p@ =~= Seq::new(i as nat, |j: int| 0xFFu8),
        decreases PING_PAYLOAD_LEN - i,
    {
        p.push(0xFF);
        proof {
            assert(p@ =~= Seq::new(i as nat + 1, |j: int| 0xFFu8));
        }
        i = i + 1;
    }
    write_i64_be(&mut p, now_ms);
    proof {
        assert(Seq::new(PING_PAYLOAD_LEN as nat, |j: int| 0xFFu8).skip(8) =~= Seq::new(
            (PING_PAYLOAD_LEN - 8) as nat,
            |j: int| 0xFFu8,
        ));
    }
    p
}

/// Encode the full echo request for sequence number `seq_no` at `now_ms`.
pub fn build_ping_request(seq_no: u16, now_ms: i64) -> (r: Vec<u8>)
    ensures
        r@ == spec_echo_request_bytes(PING_IDENT, seq_no, spec_ping_payload(now_ms)),
        r@.len() == 8 + PING_PAYLOAD_LEN,
{
    let payload = make_echo_payload(now_ms);
    emit_echo_request(PING_IDENT, seq_no, &payload)
}

/// One line of ping output: the reply's size on the wire (payload plus
/// the eight-byte echo header), its sequence number, and the round-trip
/// time.
#[derive(Clone, Copy, Debug, PartialEq, Eq, Structural)]
pub struct PingReply {
    pub bytes: usize,
    pub seq_no: u16,
    pub time_ms: i64,
}

/// Summarise a decoded echo reply received at `now_ms`: the reported size
/// counts the payload plus the eight-byte echo header, as the wire packet
/// carried it, and the round trip is the receive time minus the timestamp
/// the request carried in its first eight payload bytes.
pub fn ping_reply_summary(seq_no: u16, data: &Vec<u8>, now_ms: i64) -> (r: PingReply)
    requires
        data@.len() >= 8,
        data@.len() + 8 <= usize::MAX,
        now_ms >= 0,
        0 <= spec_be_i64_of(data@) <= now_ms,
    ensures
        r.bytes == data@.len() + 8,
        r.seq_no == seq_no,
        r.time_ms == now_ms - spec_be_i64_of(data@),
{
    let sent_ms = read_i64_be(data);
    PingReply { bytes: data.len() + 8, seq_no, time_ms: now_ms - sent_ms }
}

/// Handle one packet received on the ping socket at `now_ms`: decode it as
/// an echo reply and summarise it, or reject it when it is not a
/// well-formed reply or its timestamp is not a plausible send time.
pub fn handle_ping_reply(packet: &Vec<u8>, now_ms: i64) -> (r: Option<PingReply>)
    requires
        now_ms >= 0,
    ensures
        spec_parse_echo_reply(packet@) is None ==> r is None,
        spec_parse_echo_reply(packet@) matches Some(t) ==> ({
            if t.2.len() >= 8 && 0 <= spec_be_i64_of(t.2) <= now_ms {
                r matches Some(p) && p.bytes == t.2.len() + 8 && p.seq_no == t.1 && p.time_ms
                    == now_ms - spec_be_i64_of(t.2)
            } else {
                r is None
            }
        }),
{
    let packet_len = packet.len();
    match parse_echo_reply(packet) {
        None => None,
        Some((_ident, seq_no, data)) => {
            proof {
                assert(data@.len() + 8 == packet_len);
            }
            if data.len() < 8 {
                return None;
            }
            let sent_ms = read_i64_be(&data);
            if !(0 <= sent_ms && sent_ms <= now_ms) {
                return None;
            }
            Some(ping_reply_summary(seq_no, &data, now_ms))
        },
    }
}

/// One ping command's session: it emits exactly `PING_COUNT` echo
/// requests, sequence numbers counting up from zero, and pauses
/// `PING_INTERVAL_MS` between consecutive requests.  The caller performs
/// the sends, awaits the replies, and sleeps for the returned pause.
pub struct PingSession {
    pub next_seq: u16,
}

impl PingSession {
    /// A fresh session: the first request carries sequence number zero.
    pub fn new() -> (s: PingSession)
        ensures
            s.next_seq == 0,
    {
        PingSession { next_seq: 0 }
    }

    /// The next request to send at `now_ms`, or nothing once all
    /// `PING_COUNT` requests are out.  Each call hands out one sequence
    /// number, in order, so no session sends more than `PING_COUNT`
    /// requests and none twice.
    pub fn next_request(&mut self, now_ms: i64) -> (r: Option<Vec<u8>>)
        ensures
            old(self).next_seq < PING_COUNT ==> (r matches Some(b) && b@
                == spec_echo_request_bytes(
                PING_IDENT,
                old(self).next_seq,
                spec_ping_payload(now_ms),
            )) && final(self).next_seq == old(self).next_seq + 1,
            old(self).next_seq >= PING_COUNT ==> r is None && final(self).next_seq == old(
                self,
            ).next_seq,
    {
        if self.next_seq < PING_COUNT {
            let seq_no = self.next_seq;
            self.next_seq = self.next_seq + 1;
            Some(build_ping_request(seq_no, now_ms))
        } else {
            None
        }
    }

    /// How long to pause after the request just sent: the full interval
    /// between consecutive requests, and nothing after the last one.
    pub fn pause_before_next(&self) -> (r: Option<u64>)
        ensures
            self.next_seq < PING_COUNT ==> r == Some(PING_INTERVAL_MS),
            self.next_seq >= PING_COUNT ==> r is None,
    {
        if self.next_seq < PING_COUNT {
            Some(PING_INTERVAL_MS)
        } else {
            None
        }
    }
}

} // verus!
