//! The per-call request context: identifier, monotonically advancing
//! sequence number, destination, encoded wire buffer and timeout. The
//! context owns no socket or handle — the transport around it does — but it
//! decides exactly which bytes each send carries.

use vstd::prelude::*;
use crate::{validate_timeout, IpAddress, PingError};
use crate::codec::{
    encoded_packet, make_data, set_request_data, Proto, ICMP_HEADER_SIZE, MAX_RAW_PAYLOAD, MTU,
};

verus! {

/// The protocol family an address belongs to.
pub open spec fn spec_proto_of(addr: IpAddress) -> Proto {
    match addr {
        IpAddress::V4(_) => Proto::V4,
        IpAddress::V6(_) => Proto::V6,
    }
}

pub fn proto_of(addr: IpAddress) -> (p: Proto)
    ensures
        p == spec_proto_of(addr),
{
    match addr {
        IpAddress::V4(_) => Proto::V4,
        IpAddress::V6(_) => Proto::V6,
    }
}

/// One echo exchange in the making: everything a send needs except the
/// socket or handle that carries it.
pub struct PingContext {
    /// Echo identifier (the caller derives it from its process id).
    pub ident: u16,
    /// Sequence number of the most recent send; zero before the first.
    pub sequence: u16,
    /// Destination of the exchange.
    pub destination: IpAddress,
    /// The encoded wire buffer: header followed by the user payload.
    pub payload: Vec<u8>,
    /// The caller's deadline in milliseconds; always positive.
    pub timeout_ms: u64,
}

impl PingContext {
    /// The user payload carried after the header.
    pub open spec fn user_data(self) -> Seq<u8> {
        self.payload@.skip(ICMP_HEADER_SIZE as int)
    }

    /// Well-formedness: the buffer holds a header and fits the raw-socket
    /// transmission bound, its type and code are the request type and code
    /// of the destination's family, and the timeout is positive.
    pub open spec fn wf(self) -> bool {
        &&& ICMP_HEADER_SIZE <= self.payload@.len() <= MTU
        &&& self.payload@[0] == spec_proto_of(self.destination).spec_echo_request_type()
        &&& self.payload@[1] == spec_proto_of(self.destination).spec_echo_request_code()
        &&& self.timeout_ms > 0
    }

    /// Builds the context for one call: validates the timeout, then encodes
    /// the request buffer (identifier and sequence still zero). A zero
    /// timeout and an oversized payload are refused here, before any
    /// transport resource exists.
    pub fn new(addr: IpAddress, timeout_ms: u64, data: &[u8], ident: u16) -> (r: Result<
        PingContext,
        PingError,
    >)
        ensures
            timeout_ms == 0 ==> (r matches Err(e) && e == PingError::BadParameter("timeout")),
            timeout_ms > 0 && data@.len() > MAX_RAW_PAYLOAD ==> r == Err::<PingContext, PingError>(
                PingError::DataSizeTooBig(MAX_RAW_PAYLOAD),
            ),
            timeout_ms > 0 && data@.len() <= MAX_RAW_PAYLOAD ==> (r matches Ok(ctx) && {
                &&& ctx.ident == ident
                &&& ctx.sequence == 0
                &&& ctx.destination == addr
                &&& ctx.timeout_ms == timeout_ms
                &&& ctx.payload@ == encoded_packet(
                    spec_proto_of(addr).spec_echo_request_type(),
                    spec_proto_of(addr).spec_echo_request_code(),
                    0,
                    0,
                    data@,
                )
                &&& ctx.user_data() == data@
                &&& ctx.wf()
            }),
    {
        let timeout_ms = match validate_timeout(timeout_ms) {
            Ok(t) => t,
            Err(e) => {
                return Err(e);
            },
        };
        let proto = proto_of(addr);
        let payload = match make_data(proto, data) {
            Ok(p) => p,
            Err(e) => {
                return Err(e);
            },
        };
        proof {
            crate::codec::lemma_encode_round_trip(
                proto.spec_echo_request_type(),
                proto.spec_echo_request_code(),
                0,
                0,
                data@,
            );
        }
        Ok(PingContext { ident, sequence: 0, destination: addr, payload, timeout_ms })
    }

    /// Advances the sequence number and rewrites the wire buffer so that it
    /// carries this context's identifier, the new sequence number and a
    /// fresh checksum. Each send of one context thus carries the next
    /// sequence number: 1, 2, 3, … with no repeats.
    pub fn prepare_ping(&mut self)
        requires
            old(self).wf(),
            old(self).sequence < 0xFFFF,
        ensures
            final(self).sequence == old(self).sequence + 1,
            final(self).ident == old(self).ident,
            final(self).destination == old(self).destination,
            final(self).timeout_ms == old(self).timeout_ms,
            final(self).payload@ == encoded_packet(
                spec_proto_of(old(self).destination).spec_echo_request_type(),
                spec_proto_of(old(self).destination).spec_echo_request_code(),
                old(self).ident,
                (old(self).sequence + 1) as u16,
                old(self).user_data(),
            ),
            final(self).user_data() == old(self).user_data(),
            final(self).wf(),
    {
        self.sequence = self.sequence + 1;
        let ghost before = self.payload@;
        set_request_data(&mut self.payload, self.ident, self.sequence);
        proof {
            crate::codec::lemma_encode_round_trip(
                before[0],
                before[1],
                self.ident,
                self.sequence,
                before.skip(ICMP_HEADER_SIZE as int),
            );
        }
    }
}

/// The sequence number a fresh context carries after `n` preparations.
pub open spec fn sequence_after(n: nat) -> nat
    decreases n,
{
    if n == 0 {
        0
    } else {
        sequence_after((n - 1) as nat) + 1
    }
}

/// Sequence monotonicity: the n-th send of one context carries sequence
/// number n, so consecutive sends carry 1, 2, 3, … and no two sends of one
/// context share a number.
pub proof fn lemma_sequence_monotonic(m: nat, n: nat)
    ensures
        sequence_after(n) == n,
        m < n ==> sequence_after(m) < sequence_after(n),
    decreases n,
{
    if n > 0 {
        lemma_sequence_monotonic(0, (n - 1) as nat);
    }
    if m < n {
        lemma_sequence_monotonic(0, m);
    }
}

} // verus!
