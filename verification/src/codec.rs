//! ICMP echo packet codec: the 8-byte echo header (type, code, checksum,
//! identifier, sequence, each multi-byte field big-endian), request
//! encoding, and the executable checksum computation.

use vstd::prelude::*;
use vstd::pervasive::VecAdditionalExecFns;
use crate::PingError;
use crate::checksum::{
    checksum_of, checksum_verifies, fold_carries, lemma_fold_carries_bounds, num_words,
    sum_first_words, sum_words, word_value,
};

verus! {

/// Number of bytes in an ICMP echo header.
pub const ICMP_HEADER_SIZE: usize = 8;

/// Receive buffer size on the raw-socket path: one Ethernet MTU.
pub const MTU: usize = 1500;

/// Payload ceiling on the raw-socket path: an echo request is sent as a
/// single datagram and must fit in one MTU-sized buffer with its header.
pub const MAX_RAW_PAYLOAD: usize = MTU - ICMP_HEADER_SIZE;

/// ICMP packets ride in a single IP packet, whose 16-bit length field
/// bounds them to less than 64 KiB.
pub const MAX_PACKET_SIZE: usize = 0xFFFF;

/// Payload ceiling on the native path: the platform echo facility refuses
/// anything larger.
pub const MAX_BUFFER_SIZE: usize = 65500;

/// Refuses a payload over the native transmission ceiling, before anything
/// reaches the transport.
pub fn validate_buffer(buffer: &[u8]) -> (r: Result<&[u8], PingError>)
    ensures
        buffer@.len() > MAX_BUFFER_SIZE ==> r == Err::<&[u8], PingError>(
            PingError::DataSizeTooBig(MAX_BUFFER_SIZE),
        ),
        buffer@.len() <= MAX_BUFFER_SIZE ==> (r matches Ok(b) && b@ == buffer@),
{
    if buffer.len() > MAX_BUFFER_SIZE {
        Err(PingError::DataSizeTooBig(MAX_BUFFER_SIZE))
    } else {
        Ok(buffer)
    }
}

/// High-order byte of a 16-bit value in network (big-endian) order.
pub open spec fn be16_hi(v: u16) -> u8 {
    (v / 256) as u8
}

/// Low-order byte of a 16-bit value in network (big-endian) order.
pub open spec fn be16_lo(v: u16) -> u8 {
    (v % 256) as u8
}

/// The 16-bit value carried by two bytes in network (big-endian) order.
pub open spec fn be16_of(hi: u8, lo: u8) -> u16 {
    (hi as int * 256 + lo as int) as u16
}

/// The protocol family of an echo exchange, which fixes the wire type and
/// code of requests and replies.
#[derive(Debug, Clone, Copy, PartialEq, Eq, Structural)]
pub enum Proto {
    V4,
    V6,
}

impl Proto {
    /// Wire type of an echo request for this family.
    pub open spec fn spec_echo_request_type(self) -> u8 {
        match self {
            Proto::V4 => 8,
            Proto::V6 => 128,
        }
    }

    /// Wire code of an echo request for this family.
    pub open spec fn spec_echo_request_code(self) -> u8 {
        0
    }

    /// Wire type of an echo reply for this family.
    pub open spec fn spec_echo_reply_type(self) -> u8 {
        match self {
            Proto::V4 => 0,
            Proto::V6 => 129,
        }
    }

    /// Wire code of an echo reply for this family.
    pub open spec fn spec_echo_reply_code(self) -> u8 {
        0
    }

    pub fn echo_request_type(self) -> (t: u8)
        ensures
            t == self.spec_echo_request_type(),
    {
        match self {
            Proto::V4 => 8,
            Proto::V6 => 128,
        }
    }

    pub fn echo_request_code(self) -> (c: u8)
        ensures
            c == self.spec_echo_request_code(),
    {
        0
    }

    pub fn echo_reply_type(self) -> (t: u8)
        ensures
            t == self.spec_echo_reply_type(),
    {
        match self {
            Proto::V4 => 0,
            Proto::V6 => 129,
        }
    }

    pub fn echo_reply_code(self) -> (c: u8)
        ensures
            c == self.spec_echo_reply_code(),
    {
        0
    }
}

/// The fields of an ICMP echo header.
#[derive(Debug, Clone, Copy, PartialEq, Eq, Structural)]
pub struct IcmpEchoHeader {
    /// ICMP message type.
    pub msg_type: u8,
    /// ICMP message code.
    pub code: u8,
    /// Internet checksum over the whole packet.
    pub checksum: u16,
    /// Echo identifier.
    pub ident: u16,
    /// Echo sequence number.
    pub seq: u16,
}

/// The wire bytes of a header: type, code, then checksum, identifier and
/// sequence in network order.
pub open spec fn header_bytes(t: u8, code: u8, checksum: u16, ident: u16, seq: u16) -> Seq<u8> {
    seq![
        t,
        code,
        be16_hi(checksum),
        be16_lo(checksum),
        be16_hi(ident),
        be16_lo(ident),
        be16_hi(seq),
        be16_lo(seq),
    ]
}

/// The header read back from the first eight bytes of a buffer.
pub open spec fn parse_header(b: Seq<u8>) -> IcmpEchoHeader
    recommends
        b.len() >= ICMP_HEADER_SIZE,
{
    IcmpEchoHeader {
        msg_type: b[0],
        code: b[1],
        checksum: be16_of(b[2], b[3]),
        ident: be16_of(b[4], b[5]),
        seq: be16_of(b[6], b[7]),
    }
}

impl IcmpEchoHeader {
    /// An all-zero header.
    pub fn zeroed() -> (h: IcmpEchoHeader)
        ensures
            h == (IcmpEchoHeader { msg_type: 0, code: 0, checksum: 0, ident: 0, seq: 0 }),
    {
        IcmpEchoHeader { msg_type: 0, code: 0, checksum: 0, ident: 0, seq: 0 }
    }

    pub fn set_checksum(&mut self, checksum: u16)
        ensures
            *final(self) == (IcmpEchoHeader { checksum, ..*old(self) }),
    {
        self.checksum = checksum;
    }

    pub fn set_ident(&mut self, ident: u16)
        ensures
            *final(self) == (IcmpEchoHeader { ident, ..*old(self) }),
    {
        self.ident = ident;
    }

    pub fn set_seq(&mut self, seq: u16)
        ensures
            *final(self) == (IcmpEchoHeader { seq, ..*old(self) }),
    {
        self.seq = seq;
    }

    pub fn checksum(&self) -> (r: u16)
        ensures
            r == self.checksum,
    {
        self.checksum
    }

    pub fn ident(&self) -> (r: u16)
        ensures
            r == self.ident,
    {
        self.ident
    }

    pub fn seq(&self) -> (r: u16)
        ensures
            r == self.seq,
    {
        self.seq
    }

    /// The wire bytes of this header.
    pub open spec fn spec_bytes(self) -> Seq<u8> {
        header_bytes(self.msg_type, self.code, self.checksum, self.ident, self.seq)
    }

    /// Encodes the header into its eight wire bytes.
    pub fn to_bytes(&self) -> (r: Vec<u8>)
        ensures
            r@ == self.spec_bytes(),
    {
        let mut out: Vec<u8> = Vec::new();
        out.push(self.msg_type);
        out.push(self.code);
        push_be16(&mut out, self.checksum);
        push_be16(&mut out, self.ident);
        push_be16(&mut out, self.seq);
        proof {
            assert(out@ =~= self.spec_bytes());
        }
        out
    }

    /// Decodes the header from the first eight bytes of a buffer.
    pub fn read_from(buffer: &[u8]) -> (h: IcmpEchoHeader)
        requires
            buffer@.len() >= ICMP_HEADER_SIZE,
        ensures
            h == parse_header(buffer@),
    {
        IcmpEchoHeader {
            msg_type: buffer[0],
            code: buffer[1],
            checksum: read_be16(buffer, 2),
            ident: read_be16(buffer, 4),
            seq: read_be16(buffer, 6),
        }
    }
}

/// Appends a 16-bit value in network order.
fn push_be16(out: &mut Vec<u8>, v: u16)
    ensures
        final(out)@ == old(out)@ + seq![be16_hi(v), be16_lo(v)],
{
    out.push((v / 256) as u8);
    out.push((v % 256) as u8);
    proof {
        assert(out@ =~= old(out)@ + seq![be16_hi(v), be16_lo(v)]);
    }
}

/// Reads the 16-bit value carried in network order at `offset`.
fn read_be16(buffer: &[u8], offset: usize) -> (v: u16)
    requires
        offset + 2 <= buffer@.len(),
    ensures
        v == be16_of(buffer@[offset as int], buffer@[offset as int + 1]),
{
    buffer[offset] as u16 * 256 + buffer[offset + 1] as u16
}

/// Reading back the written bytes of a 16-bit value recovers it.
pub proof fn lemma_be16_round_trip(v: u16)
    ensures
        be16_of(be16_hi(v), be16_lo(v)) == v,
{
    vstd::arithmetic::div_mod::lemma_fundamental_div_mod(v as int, 256);
}

/// Computes the Internet checksum of a buffer, with whatever its checksum
/// field currently holds taken as data.
pub fn compute_checksum(buffer: &[u8]) -> (r: u16)
    requires
        buffer@.len() <= MAX_PACKET_SIZE,
    ensures
        r == checksum_of(buffer@),
{
    let n = buffer.len();
    let num: usize = (n + 1) / 2;
    proof {
        vstd::arithmetic::div_mod::lemma_fundamental_div_mod(n as int + 1, 2);
    }
    let mut w: usize = 0;
    let mut sum: u64 = 0;
    while w < num
        invariant
            w <= num,
            num == num_words(buffer@),
            2 * num <= buffer@.len() + 1,
            n == buffer@.len(),
            buffer@.len() <= MAX_PACKET_SIZE,
            sum == sum_first_words(buffer@, w as int),
            sum <= w * 0xFFFF,
        decreases num - w,
    {
        assert(2 * w < n);
        let i = 2 * w;
        let hi = buffer[i];
        let lo = if i + 1 < n {
            buffer[i + 1]
        } else {
            0
        };
        proof {
            assert(word_value(buffer@, w as int) == hi as int * 256 + lo as int);
        }
        sum = sum + (hi as u64) * 256 + (lo as u64);
        w = w + 1;
    }
    proof {
        lemma_fold_carries_bounds(sum as int);
    }
    while sum > 0xFFFF
        invariant
            0 <= sum,
            fold_carries(sum as int) == fold_carries(sum_words(buffer@)),
        decreases sum,
    {
        sum = sum % 0x10000 + sum / 0x10000;
    }
    0xFFFF - (sum as u16)
}

/// Checks a received buffer: its folded word sum, taken with the
/// transmitted checksum in place, must be all ones, which is the same as
/// its recomputed complement being zero.
pub fn verify_checksum(buffer: &[u8]) -> (ok: bool)
    requires
        buffer@.len() <= MAX_PACKET_SIZE,
    ensures
        ok == checksum_verifies(buffer@),
{
    let ck = compute_checksum(buffer);
    proof {
        crate::checksum::lemma_sum_words_nonneg(buffer@);
        lemma_fold_carries_bounds(sum_words(buffer@));
    }
    ck == 0
}

/// A buffer with its checksum field zeroed out.
pub open spec fn zero_checksum(b: Seq<u8>) -> Seq<u8> {
    b.update(2, 0u8).update(3, 0u8)
}

/// A buffer with the checksum of its zero-checksum form written into the
/// checksum field.
pub open spec fn with_checksum(b: Seq<u8>) -> Seq<u8> {
    let ck = checksum_of(zero_checksum(b));
    b.update(2, be16_hi(ck)).update(3, be16_lo(ck))
}

/// Computes the packet checksum over the buffer with the checksum field
/// zeroed, and writes it into the checksum field.
pub fn write_checksum(buffer: &mut Vec<u8>)
    requires
        ICMP_HEADER_SIZE <= old(buffer)@.len() <= MAX_PACKET_SIZE,
    ensures
        final(buffer)@ == with_checksum(old(buffer)@),
{
    buffer.set(2, 0);
    buffer.set(3, 0);
    let ck = compute_checksum(buffer.as_slice());
    buffer.set(2, (ck / 256) as u8);
    buffer.set(3, (ck % 256) as u8);
    proof {
        assert(buffer@ =~= with_checksum(old(buffer)@));
    }
}

/// The checksum an encoded request carries: computed over the packet with
/// the checksum field zero.
pub open spec fn packet_checksum(t: u8, code: u8, ident: u16, seq_no: u16, payload: Seq<u8>) -> u16 {
    checksum_of(header_bytes(t, code, 0, ident, seq_no) + payload)
}

/// The full wire form of an echo request: header followed by payload, with
/// the checksum in place.
pub open spec fn encoded_packet(t: u8, code: u8, ident: u16, seq_no: u16, payload: Seq<u8>) -> Seq<u8> {
    header_bytes(t, code, packet_checksum(t, code, ident, seq_no, payload), ident, seq_no) + payload
}

/// Builds the wire buffer for an echo request of the given family:
/// header (identifier and sequence still zero) followed by the payload,
/// checksum written. A payload over the raw-socket ceiling is refused
/// before any buffer is built.
pub fn make_data(proto: Proto, data: &[u8]) -> (r: Result<Vec<u8>, PingError>)
    ensures
        data@.len() > MAX_RAW_PAYLOAD ==> r == Err::<Vec<u8>, PingError>(
            PingError::DataSizeTooBig(MAX_RAW_PAYLOAD),
        ),
        data@.len() <= MAX_RAW_PAYLOAD ==> (r matches Ok(buf) && buf@ == encoded_packet(
            proto.spec_echo_request_type(),
            proto.spec_echo_request_code(),
            0,
            0,
            data@,
        )),
{
    if data.len() > MAX_RAW_PAYLOAD {
        return Err(PingError::DataSizeTooBig(MAX_RAW_PAYLOAD));
    }
    let mut buffer: Vec<u8> = Vec::new();
    buffer.push(proto.echo_request_type());
    buffer.push(proto.echo_request_code());
    let mut i: usize = 0;
    while i < 6
        invariant
            i <= 6,
            buffer@.len() == 2 + i,
            buffer@[0] == proto.spec_echo_request_type(),
            buffer@[1] == proto.spec_echo_request_code(),
            forall|j: int| 2 <= j < buffer@.len() ==> buffer@[j] == 0u8,
        decreases 6 - i,
    {
        buffer.push(0);
        i = i + 1;
    }
    buffer.extend_from_slice(data);
    proof {
        assert(buffer@ =~= header_bytes(
            proto.spec_echo_request_type(),
            proto.spec_echo_request_code(),
            0,
            0,
            0,
        ) + data@);
    }
    write_checksum(&mut buffer);
    proof {
        let t = proto.spec_echo_request_type();
        let c = proto.spec_echo_request_code();
        let z = header_bytes(t, c, 0, 0, 0) + data@;
        assert(zero_checksum(z) =~= z);
        assert(with_checksum(z) =~= encoded_packet(t, c, 0, 0, data@));
    }
    Ok(buffer)
}

/// Writes identifier and sequence into an already-encoded request buffer
/// and recomputes the checksum, leaving exactly the wire form of a request
/// with those fields.
pub fn set_request_data(data: &mut Vec<u8>, ident: u16, sequence: u16)
    requires
        ICMP_HEADER_SIZE <= old(data)@.len() <= MAX_PACKET_SIZE,
    ensures
        final(data)@ == encoded_packet(
            old(data)@[0],
            old(data)@[1],
            ident,
            sequence,
            old(data)@.skip(ICMP_HEADER_SIZE as int),
        ),
{
    data.set(4, (ident / 256) as u8);
    data.set(5, (ident % 256) as u8);
    data.set(6, (sequence / 256) as u8);
    data.set(7, (sequence % 256) as u8);
    write_checksum(data);
    proof {
        let b = old(data)@;
        let z = header_bytes(b[0], b[1], 0, ident, sequence) + b.skip(ICMP_HEADER_SIZE as int);
        let s = b.update(4, be16_hi(ident)).update(5, be16_lo(ident)).update(
            6,
            be16_hi(sequence),
        ).update(7, be16_lo(sequence));
        assert(zero_checksum(s) =~= z);
        assert(with_checksum(s) =~= encoded_packet(
            b[0],
            b[1],
            ident,
            sequence,
            b.skip(ICMP_HEADER_SIZE as int),
        ));
    }
}

/// Word sums of two equal-length buffers that agree on every word except
/// possibly the checksum word differ exactly by that word.
proof fn lemma_sum_first_words_agree(b1: Seq<u8>, b2: Seq<u8>, k: int)
    requires
        b1.len() == b2.len(),
        0 <= k,
        forall|j: int| 0 <= j < k && j != 1 ==> word_value(b1, j) == word_value(b2, j),
    ensures
        sum_first_words(b1, k) - sum_first_words(b2, k) == if k >= 2 {
            word_value(b1, 1) - word_value(b2, 1)
        } else {
            0int
        },
    decreases k,
{
    if k > 0 {
        lemma_sum_first_words_agree(b1, b2, k - 1);
    }
}

/// Writing the computed checksum into a zero-checksum packet yields a
/// packet that passes checksum verification: summed with the transmitted
/// checksum in place, the words fold to all ones.
pub proof fn lemma_checksum_round_trip(b: Seq<u8>)
    requires
        ICMP_HEADER_SIZE <= b.len(),
        b[2] == 0,
        b[3] == 0,
    ensures
        checksum_verifies(with_checksum(b)),
{
    let ck = checksum_of(zero_checksum(b));
    assert(zero_checksum(b) =~= b);
    let p = with_checksum(b);
    let s = sum_words(b);
    crate::checksum::lemma_sum_words_nonneg(b);
    lemma_fold_carries_bounds(s);
    assert(ck == 0xFFFF - fold_carries(s));
    vstd::arithmetic::div_mod::lemma_fundamental_div_mod(ck as int, 256);
    assert(word_value(p, 1) == ck as int);
    assert(word_value(b, 1) == 0);
    assert(forall|j: int| 0 <= j < num_words(b) && j != 1 ==> word_value(p, j) == word_value(b, j));
    lemma_sum_first_words_agree(p, b, num_words(b));
    assert(sum_words(p) == s + ck);
    crate::checksum::lemma_fold_complement(s);
}

/// Round trip of the whole request codec: an encoded request is eight
/// header bytes followed by the payload unchanged, parsing its header
/// recovers every field, and the received buffer passes checksum
/// verification.
pub proof fn lemma_encode_round_trip(t: u8, c: u8, ident: u16, seq_no: u16, payload: Seq<u8>)
    ensures
        ({
            let p = encoded_packet(t, c, ident, seq_no, payload);
            &&& p.len() == ICMP_HEADER_SIZE + payload.len()
            &&& p.skip(ICMP_HEADER_SIZE as int) == payload
            &&& parse_header(p) == (IcmpEchoHeader {
                msg_type: t,
                code: c,
                checksum: packet_checksum(t, c, ident, seq_no, payload),
                ident,
                seq: seq_no,
            })
            &&& checksum_verifies(p)
        }),
{
    let p = encoded_packet(t, c, ident, seq_no, payload);
    let z = header_bytes(t, c, 0, ident, seq_no) + payload;
    let ck = packet_checksum(t, c, ident, seq_no, payload);
    assert(zero_checksum(z) =~= z);
    assert(with_checksum(z) =~= p);
    lemma_checksum_round_trip(z);
    assert(p.skip(ICMP_HEADER_SIZE as int) =~= payload);
    lemma_be16_round_trip(ck);
    lemma_be16_round_trip(ident);
    lemma_be16_round_trip(seq_no);
}

} // verus!
