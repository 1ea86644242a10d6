//! Decoding of received echo replies: validation of the outer IPv4 header
//! on the v4 raw path, extraction of the inner echo header, the reply
//! type/code check, and the fixed-layout decode of a native v4 echo reply.

use vstd::prelude::*;
use crate::{IpAddress, PingApiOutput, PingError, PingReply};
use crate::codec::{parse_header, IcmpEchoHeader, Proto, ICMP_HEADER_SIZE};
use crate::ip_status;

verus! {

/// Size of the outer IPv4 header that precedes the echo reply on the v4
/// raw path.
pub const ICMP_REPLY_HEADER_SIZE: usize = 20;

/// Protocol number of ICMP in an IPv4 header.
pub const ICMP_PROTOCOL: u8 = 1;

/// The fields reply validation reads from the outer IPv4 header, with the
/// inner echo header that follows it.
#[derive(Debug, Clone, Copy, PartialEq, Eq, Structural)]
pub struct IcmpV4ReplyHeader {
    /// First byte of the IP header: version nibble then length nibble.
    pub version_ihl: u8,
    /// Protocol field of the IP header.
    pub protocol: u8,
    /// The echo header that follows the IP header.
    pub reply: IcmpEchoHeader,
}

impl IcmpV4ReplyHeader {
    /// The IP version: the high four bits of the first header byte.
    pub open spec fn spec_version(self) -> u8 {
        (self.version_ihl / 16) as u8
    }

    /// The header-size nibble: the low four bits of the first header byte.
    pub open spec fn spec_header_size(self) -> usize {
        (self.version_ihl % 16) as usize
    }

    pub fn version(&self) -> (v: u8)
        ensures
            v == self.spec_version(),
    {
        self.version_ihl / 16
    }

    pub fn header_size(&self) -> (s: usize)
        ensures
            s == self.spec_header_size(),
    {
        (self.version_ihl % 16) as usize
    }

    /// Reads the validated fields out of a raw v4 reply buffer.
    pub fn read_from(reply: &[u8]) -> (h: IcmpV4ReplyHeader)
        requires
            reply@.len() >= ICMP_REPLY_HEADER_SIZE + ICMP_HEADER_SIZE,
        ensures
            h.version_ihl == reply@[0],
            h.protocol == reply@[9],
            h.reply == parse_header(reply@.skip(ICMP_REPLY_HEADER_SIZE as int)),
    {
        let inner = vstd::slice::slice_subrange(reply, ICMP_REPLY_HEADER_SIZE, reply.len());
        IcmpV4ReplyHeader {
            version_ihl: reply[0],
            protocol: reply[9],
            reply: IcmpEchoHeader::read_from(inner),
        }
    }
}

/// What validating a raw v4 reply yields: the buffer must hold the outer
/// and inner headers, carry IP version 4, be no shorter than its
/// header-size nibble, and carry the ICMP protocol number; anything else is
/// a header-format error.
pub open spec fn spec_reply_header_v4(reply: Seq<u8>) -> Result<IcmpEchoHeader, PingError> {
    if reply.len() < ICMP_REPLY_HEADER_SIZE + ICMP_HEADER_SIZE || reply[0] / 16 != 4
        || reply.len() < reply[0] % 16 || reply[9] != ICMP_PROTOCOL {
        Err(PingError::IpError(ip_status::BadHeader))
    } else {
        Ok(parse_header(reply.skip(ICMP_REPLY_HEADER_SIZE as int)))
    }
}

/// What validating a raw v6 reply yields: the payload is the echo header
/// itself; only its length is checked.
pub open spec fn spec_reply_header_v6(reply: Seq<u8>) -> Result<IcmpEchoHeader, PingError> {
    if reply.len() < ICMP_HEADER_SIZE {
        Err(PingError::IpError(ip_status::BadHeader))
    } else {
        Ok(parse_header(reply))
    }
}

/// Family dispatch of reply-header validation.
pub open spec fn spec_reply_header(proto: Proto, reply: Seq<u8>) -> Result<IcmpEchoHeader, PingError> {
    match proto {
        Proto::V4 => spec_reply_header_v4(reply),
        Proto::V6 => spec_reply_header_v6(reply),
    }
}

/// Validates a received raw reply buffer and returns its echo header, or a
/// header-format error when any outer-header check fails.
pub fn get_reply_header(proto: Proto, reply: &[u8]) -> (r: Result<IcmpEchoHeader, PingError>)
    ensures
        r == spec_reply_header(proto, reply@),
{
    match proto {
        Proto::V4 => {
            if reply.len() < ICMP_REPLY_HEADER_SIZE + ICMP_HEADER_SIZE {
                return Err(PingError::IpError(ip_status::BadHeader));
            }
            let header = IcmpV4ReplyHeader::read_from(reply);
            if header.version() != 4 || reply.len() < header.header_size()
                || header.protocol != ICMP_PROTOCOL {
                return Err(PingError::IpError(ip_status::BadHeader));
            }
            Ok(header.reply)
        },
        Proto::V6 => {
            if reply.len() < ICMP_HEADER_SIZE {
                return Err(PingError::IpError(ip_status::BadHeader));
            }
            Ok(IcmpEchoHeader::read_from(reply))
        },
    }
}

/// The result of one received raw reply: a validated reply whose header
/// carries exactly the expected reply type and code for the family yields
/// the replying address and elapsed time; any mismatch is a header-format
/// error.
pub open spec fn spec_parse_reply(
    proto: Proto,
    reply: Seq<u8>,
    address: IpAddress,
    elapsed_ms: u32,
) -> PingApiOutput {
    match spec_reply_header(proto, reply) {
        Err(e) => Err(e),
        Ok(h) => {
            if h.msg_type != proto.spec_echo_reply_type() || h.code != proto.spec_echo_reply_code() {
                Err(PingError::IpError(ip_status::BadHeader))
            } else {
                Ok(PingReply { address, rtt: elapsed_ms })
            }
        },
    }
}

/// Turns one received raw reply into the call's result, given the replying
/// address and the elapsed milliseconds measured by the caller.
pub fn parse_reply(proto: Proto, reply: &[u8], address: IpAddress, elapsed_ms: u32) -> (r:
    PingApiOutput)
    ensures
        r == spec_parse_reply(proto, reply@, address, elapsed_ms),
{
    let header = match get_reply_header(proto, reply) {
        Ok(h) => h,
        Err(e) => {
            return Err(e);
        },
    };
    if header.msg_type != proto.echo_reply_type() || header.code != proto.echo_reply_code() {
        return Err(PingError::IpError(ip_status::BadHeader));
    }
    Ok(PingReply { address, rtt: elapsed_ms })
}

/// The 32-bit value carried by four bytes in network (big-endian) order.
pub open spec fn be32_of(b0: u8, b1: u8, b2: u8, b3: u8) -> u32 {
    (b0 as int * 0x1000000 + b1 as int * 0x10000 + b2 as int * 0x100 + b3 as int) as u32
}

/// The 32-bit value carried by four bytes in little-endian (native) order.
pub open spec fn le32_of(b0: u8, b1: u8, b2: u8, b3: u8) -> u32 {
    (b3 as int * 0x1000000 + b2 as int * 0x10000 + b1 as int * 0x100 + b0 as int) as u32
}

/// A native echo reply reduced to plain values: replying address, raw
/// status code, round-trip time in milliseconds.
#[derive(Debug, Clone, Copy, PartialEq, Eq, Structural)]
pub struct PingRawReply {
    pub address: IpAddress,
    pub status: u32,
    pub rtt: u32,
}

/// Reads the 32-bit value in network order at `offset`.
fn read_be32(buffer: &[u8], offset: usize) -> (v: u32)
    requires
        offset + 4 <= buffer@.len(),
    ensures
        v == be32_of(
            buffer@[offset as int],
            buffer@[offset as int + 1],
            buffer@[offset as int + 2],
            buffer@[offset as int + 3],
        ),
{
    buffer[offset] as u32 * 0x1000000 + buffer[offset + 1] as u32 * 0x10000 + buffer[offset
        + 2] as u32 * 0x100 + buffer[offset + 3] as u32
}

/// Reads the 32-bit value in little-endian (native) order at `offset`.
fn read_le32(buffer: &[u8], offset: usize) -> (v: u32)
    requires
        offset + 4 <= buffer@.len(),
    ensures
        v == le32_of(
            buffer@[offset as int],
            buffer@[offset as int + 1],
            buffer@[offset as int + 2],
            buffer@[offset as int + 3],
        ),
{
    let n = buffer.len();
    assert(offset + 3 < n);
    buffer[offset + 3] as u32 * 0x1000000 + buffer[offset + 2] as u32 * 0x10000 + buffer[offset
        + 1] as u32 * 0x100 + buffer[offset] as u32
}

/// What decoding a native v4 echo reply yields. The native facility writes
/// the reply at a fixed layout: the replying address as four bytes in
/// network order at offset 0, then status and round-trip time as 32-bit
/// values in the platform's little-endian byte order at offsets 4 and 8.
pub open spec fn spec_echo_reply_v4(b: Seq<u8>) -> PingRawReply {
    PingRawReply {
        address: IpAddress::V4(be32_of(b[0], b[1], b[2], b[3])),
        status: le32_of(b[4], b[5], b[6], b[7]),
        rtt: le32_of(b[8], b[9], b[10], b[11]),
    }
}

/// Decodes the fixed-layout prefix of a native v4 echo reply into plain
/// values, reading each field at its documented offset.
pub fn parse_echo_reply_v4(buffer: &[u8]) -> (r: PingRawReply)
    requires
        buffer@.len() >= 12,
    ensures
        r == spec_echo_reply_v4(buffer@),
{
    PingRawReply {
        address: IpAddress::V4(read_be32(buffer, 0)),
        status: read_le32(buffer, 4),
        rtt: read_le32(buffer, 8),
    }
}

} // verus!
