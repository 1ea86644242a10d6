//! Constant values representing general ICMP reply statuses. Codes at or
//! above the base enumerate ICMP-specific conditions; they are consumed
//! verbatim from the platform status table.

#![allow(non_upper_case_globals)]

use vstd::prelude::*;

verus! {

pub const Success: u32 = 0;

pub const DestinationNetworkUnreachable: u32 = 11000 + 2;

pub const DestinationHostUnreachable: u32 = 11000 + 3;

pub const DestinationProtocolUnreachable: u32 = 11000 + 4;

pub const DestinationPortUnreachable: u32 = 11000 + 5;

pub const DestinationProhibited: u32 = 11000 + 19;

pub const NoResources: u32 = 11000 + 6;

pub const BadOption: u32 = 11000 + 7;

pub const HardwareError: u32 = 11000 + 8;

pub const PacketTooBig: u32 = 11000 + 9;

pub const TimedOut: u32 = 11000 + 10;

pub const BadRoute: u32 = 11000 + 12;

pub const TtlExpired: u32 = 11000 + 13;

pub const TtlReassemblyTimeExceeded: u32 = 11000 + 14;

pub const ParameterProblem: u32 = 11000 + 15;

pub const SourceQuench: u32 = 11000 + 16;

pub const BadDestination: u32 = 11000 + 18;

pub const DestinationUnreachable: u32 = 11000 + 40;

pub const TimeExceeded: u32 = 11000 + 41;

pub const BadHeader: u32 = 11000 + 42;

pub const UnrecognizedNextHeader: u32 = 11000 + 43;

pub const IcmpError: u32 = 11000 + 44;

pub const DestinationScopeMismatch: u32 = 11000 + 45;

/// For example, no network interface is suitable to route the ping packet.
pub const GeneralFailure: u32 = 11000 + 50;

} // verus!
