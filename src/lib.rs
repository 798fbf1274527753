//! Codecs for IPv6 extension headers and ICMPv6 headers, with their
//! byte layouts, length rules and checksum stated as Verus contracts.
pub mod big_endian;
mod bytes;
pub mod checksum;
pub mod errors;
pub mod icmp6;
pub mod icmpv6;
pub mod ip_number;
pub mod ipv6_raw_extension;

pub use errors::{ReadError, ValueError};
pub use icmp6::{
    Icmp6DestUnreachable, Icmp6Header, Icmp6HeaderSlice, Icmp6ParameterProblemCode, Icmp6TimeExceededCode,
    Icmp6Type, IcmpEchoHeader,
};
pub use ipv6_raw_extension::{Ipv6RawExtensionHeader, Ipv6RawExtensionHeaderSlice};
