//! ICMP echo request framing, reply matching and the per-task sequence counter.
use vstd::prelude::*;

verus! {

/// Total length of an echo request, header included.
pub const PING_PACKET_LEN: usize = 64;

/// Length of the ICMP echo header: type, code, checksum, identifier, sequence.
pub const ECHO_HEADER_LEN: usize = 8;

/// Byte that pads an echo request after its header.
pub const PAD_BYTE: u8 = 1;

/// The sequence number that follows `seq`: one more, wrapping at 2^16 and
/// skipping zero.
pub open spec fn seq_successor(seq: u16) -> u16 {
    if seq == u16::MAX {
        1
    } else {
        (seq + 1) as u16
    }
}

/// The sequence number after `n` rounds starting from `seq`.
pub open spec fn seq_after(seq: u16, n: nat) -> u16
    decreases n,
{
    if n == 0 {
        seq
    } else {
        seq_successor(seq_after(seq, (n - 1) as nat))
    }
}

/// Advances a sequence counter: never zero, wraps at 2^16 back to one.
pub fn next_seq(seq: u16) -> (r: u16)
    ensures
        r == seq_successor(seq),
        r != 0,
{
    if seq == u16::MAX {
        1
    } else {
        seq + 1
    }
}

/// The counter never reaches zero, and from any non-zero start it walks the
/// values `1..=65535` in a cycle: after `n` rounds it stands at
/// `(seq - 1 + n) mod 65535 + 1`.
pub proof fn lemma_seq_cycle(seq: u16, n: nat)
    requires
        seq != 0,
    ensures
        seq_after(seq, n) != 0,
        seq_after(seq, n) as int == (seq - 1 + n) % 65535 + 1,
    decreases n,
{
    if n > 0 {
        lemma_seq_cycle(seq, (n - 1) as nat);
        let p = seq_after(seq, (n - 1) as nat) as int;
        let k = seq - 1 + n - 1;
        assert(p == k % 65535 + 1);
        assert((k + 1) % 65535 == if k % 65535 == 65534 { 0 } else { k % 65535 + 1 }) by {
            vstd::arithmetic::div_mod::lemma_add_mod_noop(k, 1, 65535);
            vstd::arithmetic::div_mod::lemma_small_mod(1nat, 65535nat);
        }
    }
}

/// The big-endian bytes of `v`.
pub open spec fn be_bytes(v: u16) -> Seq<u8> {
    seq![(v / 256) as u8, (v % 256) as u8]
}

/// The 16-bit big-endian value held by two bytes.
pub open spec fn be_value(hi: u8, lo: u8) -> u16 {
    (hi * 256 + lo) as u16
}

/// An echo request of `len` bytes for sequence `seq`: type 8, code 0, checksum
/// and identifier zero (the kernel fills them for datagram ICMP sockets), the
/// sequence at offset 6, then padding bytes.
pub open spec fn echo_request(seq: u16, len: nat) -> Seq<u8> {
    seq![8u8, 0u8, 0u8, 0u8, 0u8, 0u8] + be_bytes(seq) + Seq::new(
        (len - ECHO_HEADER_LEN) as nat,
        |i: int| PAD_BYTE,
    )
}

/// Builds an echo request of `len` bytes carrying sequence `seq`.
pub fn build_request(seq: u16, len: usize) -> (r: Vec<u8>)
    requires
        ECHO_HEADER_LEN <= len,
    ensures
        r@ == echo_request(seq, len as nat),
{
    let mut buf: Vec<u8> = Vec::with_capacity(len);
    buf.push(8u8);
    buf.push(0u8);
    buf.push(0u8);
    buf.push(0u8);
    buf.push(0u8);
    buf.push(0u8);
    buf.push((seq / 256) as u8);
    buf.push((seq % 256) as u8);
    let ghost header = buf@;
    assert(header == seq![8u8, 0u8, 0u8, 0u8, 0u8, 0u8] + be_bytes(seq));
    while buf.len() < len
        invariant
            ECHO_HEADER_LEN <= buf.len() <= len,
            buf@.subrange(0, ECHO_HEADER_LEN as int) == header,
            forall|i: int| ECHO_HEADER_LEN <= i < buf.len() ==> buf@[i] == PAD_BYTE,
        decreases len - buf.len(),
    {
        buf.push(PAD_BYTE);
    }
    assert(buf@ =~= echo_request(seq, len as nat));
    buf
}

/// The sequence number that a reply carries at offsets 6 and 7.
pub open spec fn reply_seq(reply: Seq<u8>) -> u16
    recommends
        reply.len() >= ECHO_HEADER_LEN,
{
    be_value(reply[6], reply[7])
}

/// What one read from an ICMP socket amounts to.
#[derive(Clone, Copy, Debug, PartialEq, Eq, Structural)]
pub enum ReplyVerdict {
    /// The reply answers the request in flight: the probe is complete.
    Matched,
    /// A well-formed reply with another sequence number (a late answer to an
    /// earlier round): ignored.
    Stale { seq: u16 },
    /// A reply whose length is not the request's: ignored.
    WrongLength { received: usize },
}

/// The verdict on a read of `received` bytes, held in `buf`, while the reply
/// to an echo request of `len` bytes with sequence `expect_seq` is awaited.
pub open spec fn verdict_of(buf: Seq<u8>, received: nat, len: nat, expect_seq: u16) -> ReplyVerdict
    recommends
        received <= buf.len(),
        ECHO_HEADER_LEN <= len,
{
    if received != len {
        ReplyVerdict::WrongLength { received: received as usize }
    } else if reply_seq(buf) == expect_seq {
        ReplyVerdict::Matched
    } else {
        ReplyVerdict::Stale { seq: reply_seq(buf) }
    }
}

/// Judges one read of `received` bytes into `buf` against the awaited reply.
pub fn classify_reply(buf: &[u8], received: usize, len: usize, expect_seq: u16) -> (r: ReplyVerdict)
    requires
        received <= buf@.len(),
        ECHO_HEADER_LEN <= len,
    ensures
        r == verdict_of(buf@, received as nat, len as nat, expect_seq),
{
    if received != len {
        return ReplyVerdict::WrongLength { received };
    }
    let seq: u16 = (buf[6] as u16) * 256 + buf[7] as u16;
    if seq == expect_seq {
        ReplyVerdict::Matched
    } else {
        ReplyVerdict::Stale { seq }
    }
}

/// A reply reflects the request's bytes: the sequence read back from an echo
/// request is the sequence it was built with.
pub proof fn lemma_request_seq_round_trip(seq: u16, len: nat)
    requires
        ECHO_HEADER_LEN <= len,
    ensures
        echo_request(seq, len).len() == len,
        reply_seq(echo_request(seq, len)) == seq,
        verdict_of(echo_request(seq, len), len, len, seq) == ReplyVerdict::Matched,
{
    let r = echo_request(seq, len);
    assert(r[6] == (seq / 256) as u8);
    assert(r[7] == (seq % 256) as u8);
}

} // verus!
