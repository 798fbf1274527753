//! IP protocol numbers used by the headers of this crate.
use vstd::prelude::*;

verus! {

/// IPv6 Hop-by-Hop Option.
pub const IPV6_HOP_BY_HOP: u8 = 0;

/// Routing Header for IPv6.
pub const IPV6_ROUTE: u8 = 43;

/// ICMP for IPv6.
pub const IPV6_ICMP: u8 = 58;

/// Destination Options for IPv6.
pub const IPV6_DEST_OPTIONS: u8 = 60;

/// Mobility Header.
pub const MOBILITY: u8 = 135;

/// Host Identity Protocol.
pub const HIP: u8 = 139;

/// Shim6 Protocol.
pub const SHIM6: u8 = 140;

} // verus!
