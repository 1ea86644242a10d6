//! ICMP Echo ("ping") engine: packet codec, reply classification, and the
//! completion-bridge state machine that turns platform completion signals
//! into a uniform suspend/resume contract.
//!
//! The networking itself (sockets, readiness polling, native echo calls)
//! happens outside this library; everything here is pure logic on plain
//! values: byte buffers, status codes, and state-machine transitions.

pub mod bridge;
pub mod checksum;
pub mod classify;
pub mod codec;
pub mod context;
pub mod ip_status;
pub mod reply;

use vstd::prelude::*;

verus! {

/// Per-call transmission options.
#[derive(Debug, Clone, Copy, PartialEq, Eq, Structural)]
pub struct PingOptions {
    /// Time-to-live (hop limit) for the outgoing packet.
    pub ttl: u8,
    /// Whether the packet forbids fragmentation.
    pub dont_fragment: bool,
}

/// An IP address as plain values: a v4 address as its four octets read as a
/// big-endian 32-bit integer, a v6 address as its eight 16-bit groups read
/// as a big-endian 128-bit integer.
#[derive(Debug, Clone, Copy, PartialEq, Eq, Structural)]
pub enum IpAddress {
    V4(u32),
    V6(u128),
}

/// A successful echo exchange: the replying address and the round-trip time
/// in milliseconds.
#[derive(Debug, Clone, Copy, PartialEq, Eq, Structural)]
pub struct PingReply {
    /// Address taken from the ICMP reply.
    pub address: IpAddress,
    /// Round-trip time in milliseconds.
    pub rtt: u32,
}

/// Everything that can go wrong with a ping call.
#[derive(Debug, Clone)]
pub enum PingError {
    /// The caller passed a bad parameter; the field names which one.
    BadParameter(&'static str),
    /// A platform call failed: native code and a human-readable message.
    OsError(u32, String),
    /// The reply carried a non-success ICMP status code.
    IpError(u32),
    /// No reply arrived within the deadline.
    TimedOut,
    /// Internal control-flow marker: the operation is still outstanding.
    /// Never surfaced to a caller of the public send operations.
    IoPending,
    /// The payload exceeds the platform ceiling; the field carries the
    /// maximum allowed size.
    DataSizeTooBig(usize),
}

/// Result of a whole ping call.
pub type PingApiOutput = Result<PingReply, PingError>;

/// Rejects a non-positive timeout. The timeout is given in milliseconds;
/// zero (the only non-positive value a duration can take) is refused
/// before any socket or handle is created.
pub fn validate_timeout(timeout_ms: u64) -> (r: Result<u64, PingError>)
    ensures
        timeout_ms == 0 ==> (r matches Err(e) && e == PingError::BadParameter("timeout")),
        timeout_ms > 0 ==> r == Ok::<u64, PingError>(timeout_ms),
{
    if timeout_ms == 0 {
        Err(PingError::BadParameter("timeout"))
    } else {
        Ok(timeout_ms)
    }
}

/// The hop limit placed on outgoing packets when the caller gives none.
pub const DEFAULT_TTL: u8 = 128;

/// The per-call transmission flag the native facility uses for "don't
/// fragment".
pub const DONT_FRAGMENT_FLAG: u8 = 2;

/// The effective per-call transmission options handed to the transport:
/// the caller's TTL or the default of 128, and the don't-fragment flag
/// exactly when the caller set it.
pub fn resolve_options(options: Option<&PingOptions>) -> (r: (u8, u8))
    ensures
        r.0 == match options {
            Some(o) => o.ttl,
            None => DEFAULT_TTL,
        },
        r.1 == (if options matches Some(o) && o.dont_fragment {
            DONT_FRAGMENT_FLAG
        } else {
            0u8
        }),
{
    match options {
        Some(o) => (o.ttl, if o.dont_fragment { DONT_FRAGMENT_FLAG } else { 0 }),
        None => (DEFAULT_TTL, 0),
    }
}

/// The outcome surfaced to callers when a synchronous wait ends: an
/// operation still marked pending has timed out. No caller of the public
/// send operations ever sees the internal pending marker.
pub fn finalize_result(r: PingApiOutput) -> (out: PingApiOutput)
    ensures
        (r matches Err(e) && e is IoPending) ==> out == Err::<PingReply, PingError>(
            PingError::TimedOut,
        ),
        !(r matches Err(e) && e is IoPending) ==> out == r,
        !(out matches Err(e) && e is IoPending),
{
    match r {
        Err(PingError::IoPending) => Err(PingError::TimedOut),
        v => v,
    }
}

} // verus!
