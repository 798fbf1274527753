//! ICMPv6 headers: the message kinds with their codes, the header as an
//! owned value and as a view of 8 bytes, and the checksum over the IPv6
//! pseudo-header.
use vstd::prelude::*;

use crate::big_endian::{
    be_u16_bytes, be_u16_value, be_u32_bytes, be_u32_value, lemma_be_u16_bytes_value,
    lemma_be_u16_injective, lemma_be_u32_bytes_value, lemma_be_u32_injective, u16_from_be_bytes,
    u16_to_be_bytes, u32_from_be_bytes, u32_to_be_bytes,
};
use crate::bytes::bytes_equal;
use crate::checksum::{
    add_words, internet_checksum, lemma_checksum_detects_byte_change, lemma_word_sum_bound,
    lemma_word_sum_concat, ones_complement, word_sum,
};
use crate::errors::{ReadError, ValueError};
use crate::ip_number::IPV6_ICMP;
use crate::icmpv6::{
    CODE_DST_UNREACH_ADDR, CODE_DST_UNREACH_BEYONDSCOPE, CODE_DST_UNREACH_NOROUTE,
    CODE_DST_UNREACH_PORT, CODE_DST_UNREACH_PROHIBITED, CODE_DST_UNREACH_REJECT_ROUTE_TO_DEST,
    CODE_DST_UNREACH_SOURCE_ADDRESS_FAILED_POLICY, CODE_TIME_EXCEEDED_FRAGMENT_REASSEMBLY_TIME_EXCEEDED,
    CODE_TIME_EXCEEDED_HOP_LIMIT_EXCEEDED, TYPE_DST_UNREACH, TYPE_ECHO_REPLY, TYPE_ECHO_REQUEST,
    TYPE_PACKET_TOO_BIG, TYPE_PARAM_PROB, TYPE_TIME_EXCEEDED,
};

verus! {

/// Identifier and sequence number of an echo request or reply.
#[derive(Clone, Copy, Debug, PartialEq, Eq, Structural)]
pub struct IcmpEchoHeader {
    /// Identifier that helps to match requests and replies.
    pub id: u16,
    /// Sequence number that helps to match requests and replies.
    pub seq: u16,
}

impl IcmpEchoHeader {
    /// The value of the four bytes: identifier then sequence number, each
    /// in network order.
    pub open spec fn spec_from_bytes(b: [u8; 4]) -> IcmpEchoHeader {
        IcmpEchoHeader {
            id: be_u16_value([b[0], b[1]]) as u16,
            seq: be_u16_value([b[2], b[3]]) as u16,
        }
    }

    /// The four bytes written for the header.
    pub open spec fn spec_to_bytes(&self) -> [u8; 4] {
        let i = be_u16_bytes(self.id);
        let s = be_u16_bytes(self.seq);
        [i[0], i[1], s[0], s[1]]
    }

    /// Reads identifier and sequence number from four bytes.
    pub fn from_bytes(b: [u8; 4]) -> (r: IcmpEchoHeader)
        ensures
            r == Self::spec_from_bytes(b),
    {
        IcmpEchoHeader { id: u16_from_be_bytes([b[0], b[1]]), seq: u16_from_be_bytes([b[2], b[3]]) }
    }

    /// The four bytes of identifier and sequence number.
    pub fn to_bytes(&self) -> (r: [u8; 4])
        ensures
            r == self.spec_to_bytes(),
    {
        let i = u16_to_be_bytes(self.id);
        let s = u16_to_be_bytes(self.seq);
        [i[0], i[1], s[0], s[1]]
    }
}

/// Reason of a "Destination Unreachable" message (the ICMPv6 code).
#[derive(Clone, Copy, Debug, PartialEq, Eq)]
pub enum Icmp6DestUnreachable {
    /// A code with no name here; the code and the four bytes are kept as
    /// they were read.
    Raw {
        /// ICMP code (the second byte of the header).
        code: u8,
        /// The fifth to eighth bytes of the header.
        four_bytes: [u8; 4],
    },
    /// No route to destination.
    NoRoute,
    /// Communication with destination administratively prohibited.
    Prohibited,
    /// Beyond scope of source address.
    BeyondScope,
    /// Address unreachable.
    Address,
    /// Port unreachable.
    Port,
    /// Source address failed ingress/egress policy.
    SourceAddressFailedPolicy,
    /// Reject route to destination.
    RejectRoute,
}

impl Icmp6DestUnreachable {
    /// The reason that a code names, or the raw values.
    pub open spec fn spec_from_bytes(code: u8, four_bytes: [u8; 4]) -> Icmp6DestUnreachable {
        if code == CODE_DST_UNREACH_NOROUTE {
            Icmp6DestUnreachable::NoRoute
        } else if code == CODE_DST_UNREACH_PROHIBITED {
            Icmp6DestUnreachable::Prohibited
        } else if code == CODE_DST_UNREACH_BEYONDSCOPE {
            Icmp6DestUnreachable::BeyondScope
        } else if code == CODE_DST_UNREACH_ADDR {
            Icmp6DestUnreachable::Address
        } else if code == CODE_DST_UNREACH_PORT {
            Icmp6DestUnreachable::Port
        } else if code == CODE_DST_UNREACH_SOURCE_ADDRESS_FAILED_POLICY {
            Icmp6DestUnreachable::SourceAddressFailedPolicy
        } else if code == CODE_DST_UNREACH_REJECT_ROUTE_TO_DEST {
            Icmp6DestUnreachable::RejectRoute
        } else {
            Icmp6DestUnreachable::Raw { code, four_bytes }
        }
    }

    /// The code of the reason.
    pub open spec fn spec_code(&self) -> u8 {
        match *self {
            Icmp6DestUnreachable::Raw { code, .. } => code,
            Icmp6DestUnreachable::NoRoute => CODE_DST_UNREACH_NOROUTE,
            Icmp6DestUnreachable::Prohibited => CODE_DST_UNREACH_PROHIBITED,
            Icmp6DestUnreachable::BeyondScope => CODE_DST_UNREACH_BEYONDSCOPE,
            Icmp6DestUnreachable::Address => CODE_DST_UNREACH_ADDR,
            Icmp6DestUnreachable::Port => CODE_DST_UNREACH_PORT,
            Icmp6DestUnreachable::SourceAddressFailedPolicy => CODE_DST_UNREACH_SOURCE_ADDRESS_FAILED_POLICY,
            Icmp6DestUnreachable::RejectRoute => CODE_DST_UNREACH_REJECT_ROUTE_TO_DEST,
        }
    }

    /// Decodes the code (second byte) and the fifth to eighth bytes of a
    /// "Destination Unreachable" message.
    pub fn from_bytes(code: u8, four_bytes: [u8; 4]) -> (r: Icmp6DestUnreachable)
        ensures
            r == Self::spec_from_bytes(code, four_bytes),
    {
        if code == CODE_DST_UNREACH_NOROUTE {
            Icmp6DestUnreachable::NoRoute
        } else if code == CODE_DST_UNREACH_PROHIBITED {
            Icmp6DestUnreachable::Prohibited
        } else if code == CODE_DST_UNREACH_BEYONDSCOPE {
            Icmp6DestUnreachable::BeyondScope
        } else if code == CODE_DST_UNREACH_ADDR {
            Icmp6DestUnreachable::Address
        } else if code == CODE_DST_UNREACH_PORT {
            Icmp6DestUnreachable::Port
        } else if code == CODE_DST_UNREACH_SOURCE_ADDRESS_FAILED_POLICY {
            Icmp6DestUnreachable::SourceAddressFailedPolicy
        } else if code == CODE_DST_UNREACH_REJECT_ROUTE_TO_DEST {
            Icmp6DestUnreachable::RejectRoute
        } else {
            Icmp6DestUnreachable::Raw { code, four_bytes }
        }
    }

    /// The code value (second byte of the header).
    pub fn code(&self) -> (r: u8)
        ensures
            r == self.spec_code(),
    {
        match self {
            Icmp6DestUnreachable::Raw { code, .. } => *code,
            Icmp6DestUnreachable::NoRoute => CODE_DST_UNREACH_NOROUTE,
            Icmp6DestUnreachable::Prohibited => CODE_DST_UNREACH_PROHIBITED,
            Icmp6DestUnreachable::BeyondScope => CODE_DST_UNREACH_BEYONDSCOPE,
            Icmp6DestUnreachable::Address => CODE_DST_UNREACH_ADDR,
            Icmp6DestUnreachable::Port => CODE_DST_UNREACH_PORT,
            Icmp6DestUnreachable::SourceAddressFailedPolicy => CODE_DST_UNREACH_SOURCE_ADDRESS_FAILED_POLICY,
            Icmp6DestUnreachable::RejectRoute => CODE_DST_UNREACH_REJECT_ROUTE_TO_DEST,
        }
    }

    /// The code and the fifth to eighth bytes: the raw values as kept, or
    /// the named code with four zero bytes.
    pub fn to_bytes(&self) -> (r: (u8, [u8; 4]))
        ensures
            r.0 == self.spec_code(),
            r.1 == (match *self {
                Icmp6DestUnreachable::Raw { four_bytes, .. } => four_bytes,
                _ => [0u8, 0, 0, 0],
            }),
    {
        match self {
            Icmp6DestUnreachable::Raw { code, four_bytes } => (*code, *four_bytes),
            _ => (self.code(), [0u8; 4]),
        }
    }
}

/// Code of a "Time Exceeded" message.
#[derive(Clone, Copy, Debug, PartialEq, Eq, Structural)]
pub enum Icmp6TimeExceededCode {
    /// A code with no name here, kept as it was read.
    Raw { code: u8 },
    /// Hop limit exceeded in transit.
    HopLimitExceeded,
    /// Fragment reassembly time exceeded.
    FragmentReassemblyTimeExceeded,
}

/// The time exceeded code that a byte names, or the raw byte.
pub open spec fn time_exceeded_code_of(code: u8) -> Icmp6TimeExceededCode {
    if code == CODE_TIME_EXCEEDED_HOP_LIMIT_EXCEEDED {
        Icmp6TimeExceededCode::HopLimitExceeded
    } else if code == CODE_TIME_EXCEEDED_FRAGMENT_REASSEMBLY_TIME_EXCEEDED {
        Icmp6TimeExceededCode::FragmentReassemblyTimeExceeded
    } else {
        Icmp6TimeExceededCode::Raw { code }
    }
}

/// The byte of a time exceeded code.
pub open spec fn time_exceeded_code_byte(code: Icmp6TimeExceededCode) -> u8 {
    match code {
        Icmp6TimeExceededCode::Raw { code } => code,
        Icmp6TimeExceededCode::HopLimitExceeded => CODE_TIME_EXCEEDED_HOP_LIMIT_EXCEEDED,
        Icmp6TimeExceededCode::FragmentReassemblyTimeExceeded => CODE_TIME_EXCEEDED_FRAGMENT_REASSEMBLY_TIME_EXCEEDED,
    }
}

impl From<u8> for Icmp6TimeExceededCode {
    fn from(code: u8) -> (r: Icmp6TimeExceededCode) {
        if code == CODE_TIME_EXCEEDED_HOP_LIMIT_EXCEEDED {
            Icmp6TimeExceededCode::HopLimitExceeded
        } else if code == CODE_TIME_EXCEEDED_FRAGMENT_REASSEMBLY_TIME_EXCEEDED {
            Icmp6TimeExceededCode::FragmentReassemblyTimeExceeded
        } else {
            Icmp6TimeExceededCode::Raw { code }
        }
    }
}

impl vstd::std_specs::convert::FromSpecImpl<u8> for Icmp6TimeExceededCode {
    open spec fn obeys_from_spec() -> bool {
        true
    }

    open spec fn from_spec(code: u8) -> Icmp6TimeExceededCode {
        time_exceeded_code_of(code)
    }
}

impl From<Icmp6TimeExceededCode> for u8 {
    fn from(code: Icmp6TimeExceededCode) -> (r: u8) {
        match code {
            Icmp6TimeExceededCode::Raw { code } => code,
            Icmp6TimeExceededCode::HopLimitExceeded => CODE_TIME_EXCEEDED_HOP_LIMIT_EXCEEDED,
            Icmp6TimeExceededCode::FragmentReassemblyTimeExceeded => CODE_TIME_EXCEEDED_FRAGMENT_REASSEMBLY_TIME_EXCEEDED,
        }
    }
}

impl vstd::std_specs::convert::FromSpecImpl<Icmp6TimeExceededCode> for u8 {
    open spec fn obeys_from_spec() -> bool {
        true
    }

    open spec fn from_spec(code: Icmp6TimeExceededCode) -> u8 {
        time_exceeded_code_byte(code)
    }
}

/// Code of a "Parameter Problem" message; no code has a name here.
#[derive(Clone, Copy, Debug, PartialEq, Eq, Structural)]
pub enum Icmp6ParameterProblemCode {
    /// The code as it was read.
    Raw { code: u8 },
}

impl From<u8> for Icmp6ParameterProblemCode {
    fn from(code: u8) -> (r: Icmp6ParameterProblemCode) {
        Icmp6ParameterProblemCode::Raw { code }
    }
}

impl vstd::std_specs::convert::FromSpecImpl<u8> for Icmp6ParameterProblemCode {
    open spec fn obeys_from_spec() -> bool {
        true
    }

    open spec fn from_spec(code: u8) -> Icmp6ParameterProblemCode {
        Icmp6ParameterProblemCode::Raw { code }
    }
}

impl From<Icmp6ParameterProblemCode> for u8 {
    fn from(code: Icmp6ParameterProblemCode) -> (r: u8) {
        match code {
            Icmp6ParameterProblemCode::Raw { code } => code,
        }
    }
}

impl vstd::std_specs::convert::FromSpecImpl<Icmp6ParameterProblemCode> for u8 {
    open spec fn obeys_from_spec() -> bool {
        true
    }

    open spec fn from_spec(code: Icmp6ParameterProblemCode) -> u8 {
        match code {
            Icmp6ParameterProblemCode::Raw { code } => code,
        }
    }
}

/// The kind of an ICMPv6 message, with the fields of its first eight bytes
/// but the checksum.
#[derive(Clone, Copy, Debug, PartialEq, Eq)]
pub enum Icmp6Type {
    /// A type with no name here; the type, code and four bytes are kept as
    /// they were read.
    Raw { icmp_type: u8, icmp_code: u8, four_bytes: [u8; 4] },
    /// Destination Unreachable message (type 1).
    DestinationUnreachable(Icmp6DestUnreachable),
    /// Packet Too Big message (type 2).
    PacketTooBig {
        /// The Maximum Transmission Unit of the next-hop link.
        mtu: u32,
    },
    /// Time Exceeded message (type 3).
    TimeExceeded {
        /// Which time was exceeded.
        code: Icmp6TimeExceededCode,
    },
    /// Parameter Problem message (type 4).
    ParameterProblem {
        /// The kind of problem.
        code: Icmp6ParameterProblemCode,
        /// Offset of the octet in the invoking packet where the error was
        /// detected.
        pointer: u32,
    },
    /// Echo Request message (type 128).
    EchoRequest(IcmpEchoHeader),
    /// Echo Reply message (type 129).
    EchoReply(IcmpEchoHeader),
}

impl Icmp6Type {
    /// The message kind that a type, code and four bytes stand for.
    pub open spec fn spec_from_bytes(icmp_type: u8, icmp_code: u8, four_bytes: [u8; 4]) -> Icmp6Type {
        if icmp_type == TYPE_DST_UNREACH {
            Icmp6Type::DestinationUnreachable(Icmp6DestUnreachable::spec_from_bytes(icmp_code, four_bytes))
        } else if icmp_type == TYPE_PACKET_TOO_BIG {
            Icmp6Type::PacketTooBig { mtu: be_u32_value(four_bytes) as u32 }
        } else if icmp_type == TYPE_TIME_EXCEEDED {
            Icmp6Type::TimeExceeded { code: time_exceeded_code_of(icmp_code) }
        } else if icmp_type == TYPE_PARAM_PROB {
            Icmp6Type::ParameterProblem {
                code: Icmp6ParameterProblemCode::Raw { code: icmp_code },
                pointer: be_u32_value(four_bytes) as u32,
            }
        } else if icmp_type == TYPE_ECHO_REQUEST {
            Icmp6Type::EchoRequest(IcmpEchoHeader::spec_from_bytes(four_bytes))
        } else if icmp_type == TYPE_ECHO_REPLY {
            Icmp6Type::EchoReply(IcmpEchoHeader::spec_from_bytes(four_bytes))
        } else {
            Icmp6Type::Raw { icmp_type, icmp_code, four_bytes }
        }
    }

    /// The type, code and four bytes written for a message kind; the bytes
    /// that a kind does not use are zero.
    pub open spec fn spec_to_bytes(&self) -> (u8, u8, [u8; 4]) {
        match *self {
            Icmp6Type::Raw { icmp_type, icmp_code, four_bytes } => (icmp_type, icmp_code, four_bytes),
            Icmp6Type::DestinationUnreachable(d) => (TYPE_DST_UNREACH, d.spec_code(), [0u8, 0, 0, 0]),
            Icmp6Type::PacketTooBig { mtu } => (TYPE_PACKET_TOO_BIG, 0, be_u32_bytes(mtu)),
            Icmp6Type::TimeExceeded { code } => (TYPE_TIME_EXCEEDED, time_exceeded_code_byte(code), [0u8, 0, 0, 0]),
            Icmp6Type::ParameterProblem { code: Icmp6ParameterProblemCode::Raw { code }, pointer } => (
                TYPE_PARAM_PROB,
                code,
                be_u32_bytes(pointer),
            ),
            Icmp6Type::EchoRequest(echo) => (TYPE_ECHO_REQUEST, 0, echo.spec_to_bytes()),
            Icmp6Type::EchoReply(echo) => (TYPE_ECHO_REPLY, 0, echo.spec_to_bytes()),
        }
    }

    /// Decodes the type (first byte), code (second byte) and the fifth to
    /// eighth bytes of an ICMPv6 header. Every input gives a kind: a type or
    /// code with no name here is kept raw.
    pub fn from_bytes(icmp_type: u8, icmp_code: u8, four_bytes: [u8; 4]) -> (r: Icmp6Type)
        ensures
            r == Self::spec_from_bytes(icmp_type, icmp_code, four_bytes),
    {
        if icmp_type == TYPE_DST_UNREACH {
            Icmp6Type::DestinationUnreachable(Icmp6DestUnreachable::from_bytes(icmp_code, four_bytes))
        } else if icmp_type == TYPE_PACKET_TOO_BIG {
            Icmp6Type::PacketTooBig { mtu: u32_from_be_bytes(four_bytes) }
        } else if icmp_type == TYPE_TIME_EXCEEDED {
            Icmp6Type::TimeExceeded { code: Icmp6TimeExceededCode::from(icmp_code) }
        } else if icmp_type == TYPE_PARAM_PROB {
            Icmp6Type::ParameterProblem {
                code: Icmp6ParameterProblemCode::from(icmp_code),
                pointer: u32_from_be_bytes(four_bytes),
            }
        } else if icmp_type == TYPE_ECHO_REQUEST {
            Icmp6Type::EchoRequest(IcmpEchoHeader::from_bytes(four_bytes))
        } else if icmp_type == TYPE_ECHO_REPLY {
            Icmp6Type::EchoReply(IcmpEchoHeader::from_bytes(four_bytes))
        } else {
            Icmp6Type::Raw { icmp_type, icmp_code, four_bytes }
        }
    }

    /// Encodes the kind as type, code and the fifth to eighth bytes of the
    /// header.
    pub fn to_bytes(&self) -> (r: (u8, u8, [u8; 4]))
        ensures
            r == self.spec_to_bytes(),
    {
        match self {
            Icmp6Type::Raw { icmp_type, icmp_code, four_bytes } => (*icmp_type, *icmp_code, *four_bytes),
            Icmp6Type::DestinationUnreachable(d) => (TYPE_DST_UNREACH, d.code(), [0u8; 4]),
            Icmp6Type::PacketTooBig { mtu } => (TYPE_PACKET_TOO_BIG, 0, u32_to_be_bytes(*mtu)),
            Icmp6Type::TimeExceeded { code } => (TYPE_TIME_EXCEEDED, u8::from(*code), [0u8; 4]),
            Icmp6Type::ParameterProblem { code, pointer } => (
                TYPE_PARAM_PROB,
                u8::from(*code),
                u32_to_be_bytes(*pointer),
            ),
            Icmp6Type::EchoRequest(echo) => (TYPE_ECHO_REQUEST, 0, echo.to_bytes()),
            Icmp6Type::EchoReply(echo) => (TYPE_ECHO_REPLY, 0, echo.to_bytes()),
        }
    }
}

/// Whether the bytes that the message kind of `icmp_type` does not use are
/// zero: the four bytes of "Destination Unreachable" and "Time Exceeded",
/// the code of "Packet Too Big" and of the echo messages.
pub open spec fn unused_bytes_zero(icmp_type: u8, icmp_code: u8, four_bytes: [u8; 4]) -> bool {
    if icmp_type == TYPE_DST_UNREACH || icmp_type == TYPE_TIME_EXCEEDED {
        four_bytes == [0u8, 0, 0, 0]
    } else if icmp_type == TYPE_PACKET_TOO_BIG || icmp_type == TYPE_ECHO_REQUEST || icmp_type
        == TYPE_ECHO_REPLY {
        icmp_code == 0
    } else {
        true
    }
}

/// Encoding four bytes read as identifier and sequence number gives them back.
proof fn lemma_echo_round_trip(b: [u8; 4])
    ensures
        IcmpEchoHeader::spec_from_bytes(b).spec_to_bytes() == b,
{
    let e = IcmpEchoHeader::spec_from_bytes(b);
    lemma_be_u16_bytes_value(e.id);
    lemma_be_u16_bytes_value(e.seq);
    lemma_be_u16_injective(be_u16_bytes(e.id), [b[0], b[1]]);
    lemma_be_u16_injective(be_u16_bytes(e.seq), [b[2], b[3]]);
    assert(e.spec_to_bytes()@ =~= b@);
}

/// Round trip: decoding a type, code and four bytes and encoding the kind
/// again gives the same bytes, wherever the bytes that the kind does not use
/// are zero (encoding writes zeros there).
pub proof fn lemma_icmp6_type_round_trip(icmp_type: u8, icmp_code: u8, four_bytes: [u8; 4])
    requires
        unused_bytes_zero(icmp_type, icmp_code, four_bytes),
    ensures
        Icmp6Type::spec_from_bytes(icmp_type, icmp_code, four_bytes).spec_to_bytes() == (
            icmp_type,
            icmp_code,
            four_bytes,
        ),
{
    if icmp_type == TYPE_PACKET_TOO_BIG || icmp_type == TYPE_PARAM_PROB {
        let v = be_u32_value(four_bytes) as u32;
        lemma_be_u32_bytes_value(v);
        lemma_be_u32_injective(be_u32_bytes(v), four_bytes);
    } else if icmp_type == TYPE_ECHO_REQUEST || icmp_type == TYPE_ECHO_REPLY {
        lemma_echo_round_trip(four_bytes);
    }
}

/// Longest payload whose message length (payload plus header) fits in 32 bits.
pub const MAX_CHECKSUM_PAYLOAD_LEN: u64 = 0xffff_fff7;

/// The header that the first eight bytes of `b` stand for.
pub open spec fn icmp6_header_of(b: Seq<u8>) -> Icmp6Header {
    Icmp6Header {
        icmp_type: Icmp6Type::spec_from_bytes(b[0], b[1], [b[4], b[5], b[6], b[7]]),
        icmp_chksum: be_u16_value([b[2], b[3]]) as u16,
    }
}

/// What a decoder makes of `bytes`: the header and the bytes that follow
/// it, or the error.
pub open spec fn decode_icmp6_header(bytes: Seq<u8>) -> Result<(Icmp6Header, Seq<u8>), ReadError> {
    if bytes.len() < Icmp6Header::SERIALIZED_SIZE {
        Err(ReadError::UnexpectedEndOfSlice(Icmp6Header::SERIALIZED_SIZE))
    } else {
        Ok((icmp6_header_of(bytes), bytes.subrange(Icmp6Header::SERIALIZED_SIZE as int, bytes.len() as int)))
    }
}

/// The bytes that the ICMPv6 checksum covers: the pseudo-header (source and
/// destination address, the next header value of ICMPv6 after a zero byte,
/// the message length in two bytes), then type and code, the four bytes and
/// the payload.
pub open spec fn icmp6_checksum_bytes(
    source: [u8; 16],
    destination: [u8; 16],
    icmp_type: u8,
    icmp_code: u8,
    four_bytes: [u8; 4],
    payload: Seq<u8>,
) -> Seq<u8> {
    let len = be_u16_bytes(((payload.len() + Icmp6Header::SERIALIZED_SIZE) % 0x1_0000) as u16);
    source@ + destination@ + seq![0u8, IPV6_ICMP] + seq![len[0], len[1]] + seq![icmp_type, icmp_code]
        + four_bytes@ + payload
}

/// The ICMPv6 checksum of a message.
pub open spec fn icmp6_checksum(
    source: [u8; 16],
    destination: [u8; 16],
    icmp_type: u8,
    icmp_code: u8,
    four_bytes: [u8; 4],
    payload: Seq<u8>,
) -> u16 {
    internet_checksum(
        icmp6_checksum_bytes(source, destination, icmp_type, icmp_code, four_bytes, payload),
    )
}

/// ICMPv6 header: the message kind and the checksum. The checksum is a
/// plain field; [`Icmp6Header::calc_checksum_ipv6`] computes the value that
/// belongs there.
#[derive(Clone, Copy, Debug, PartialEq, Eq)]
pub struct Icmp6Header {
    /// Type, code and the type-specific four bytes.
    pub icmp_type: Icmp6Type,
    /// Checksum over the pseudo-header, the header and the payload.
    pub icmp_chksum: u16,
}

impl Icmp6Header {
    /// Size of an ICMPv6 header in bytes.
    pub const SERIALIZED_SIZE: usize = 8;

    /// The eight bytes written for the header: type, code, checksum in
    /// network order, four bytes.
    pub open spec fn spec_bytes(&self) -> Seq<u8> {
        let (t, c, f) = self.icmp_type.spec_to_bytes();
        let ck = be_u16_bytes(self.icmp_chksum);
        seq![t, c, ck[0], ck[1], f[0], f[1], f[2], f[3]]
    }

    /// Size of the header in bytes (not counting the payload).
    pub fn header_len(&self) -> (r: usize)
        ensures
            r == Icmp6Header::SERIALIZED_SIZE,
            r == self.spec_bytes().len(),
    {
        Icmp6Header::SERIALIZED_SIZE
    }

    /// A header of the given kind, with the checksum zero.
    pub fn new(icmp_type: Icmp6Type) -> (r: Icmp6Header)
        ensures
            r == (Icmp6Header { icmp_type, icmp_chksum: 0 }),
    {
        Icmp6Header { icmp_type, icmp_chksum: 0 }
    }

    /// Appends the eight bytes of the header to `out`.
    pub fn write(&self, out: &mut Vec<u8>)
        ensures
            final(out)@ == old(out)@ + self.spec_bytes(),
    {
        let ck = u16_to_be_bytes(self.icmp_chksum);
        let (t, c, f) = self.icmp_type.to_bytes();
        out.push(t);
        out.push(c);
        out.push(ck[0]);
        out.push(ck[1]);
        out.push(f[0]);
        out.push(f[1]);
        out.push(f[2]);
        out.push(f[3]);
        assert(out@ =~= old(out)@ + self.spec_bytes());
    }

    /// Computes the checksum of a message with this header and `payload`,
    /// sent from `source` to `destination` (IPv6 addresses). Fails when the
    /// payload is longer than [`MAX_CHECKSUM_PAYLOAD_LEN`].
    pub fn calc_checksum_ipv6(&self, source: [u8; 16], destination: [u8; 16], payload: &[u8]) -> (r:
        Result<u16, ValueError>)
        ensures
            r is Err <==> payload@.len() > MAX_CHECKSUM_PAYLOAD_LEN,
            r matches Err(e) ==> e == ValueError::Ipv6PayloadLengthTooLarge(payload.len()),
            r matches Ok(ck) ==> {
                let (t, c, f) = self.icmp_type.spec_to_bytes();
                ck == icmp6_checksum(source, destination, t, c, f, payload@)
            },
    {
        let len = payload.len();
        if len as u64 > MAX_CHECKSUM_PAYLOAD_LEN {
            return Err(ValueError::Ipv6PayloadLengthTooLarge(len));
        }
        let (t, c, f) = self.icmp_type.to_bytes();
        let msg_len = u16_to_be_bytes(((len as u64 + 8) % 0x1_0000) as u16);
        let proto: [u8; 2] = [0, IPV6_ICMP];
        let tc: [u8; 2] = [t, c];
        let ghost pieces = seq![source@, destination@, proto@, msg_len@, tc@, f@];
        proof {
            lemma_word_sum_bound(source@);
            lemma_word_sum_bound(destination@);
            lemma_word_sum_bound(proto@);
            lemma_word_sum_bound(msg_len@);
            lemma_word_sum_bound(tc@);
            lemma_word_sum_bound(f@);
            lemma_word_sum_bound(payload@);
        }
        let mut sum: u64 = add_words(0, &source);
        sum = add_words(sum, &destination);
        sum = add_words(sum, &proto);
        sum = add_words(sum, &msg_len);
        sum = add_words(sum, &tc);
        sum = add_words(sum, &f);
        sum = add_words(sum, payload);
        proof {
            let a1 = source@ + destination@;
            let a2 = a1 + proto@;
            let a3 = a2 + msg_len@;
            let a4 = a3 + tc@;
            let a5 = a4 + f@;
            lemma_word_sum_concat(source@, destination@);
            lemma_word_sum_concat(a1, proto@);
            lemma_word_sum_concat(a2, msg_len@);
            lemma_word_sum_concat(a3, tc@);
            lemma_word_sum_concat(a4, f@);
            lemma_word_sum_concat(a5, payload@);
            assert(proto@ =~= seq![0u8, IPV6_ICMP]);
            assert(tc@ =~= seq![t, c]);
            assert(msg_len@ =~= seq![msg_len[0], msg_len[1]]);
            assert(a5 + payload@ == icmp6_checksum_bytes(source, destination, t, c, f, payload@));
        }
        Ok(ones_complement(sum))
    }

    /// Decodes a header at the start of `slice` and returns it with the
    /// bytes that follow it.
    pub fn from_slice(slice: &[u8]) -> (r: Result<(Icmp6Header, &[u8]), ReadError>)
        ensures
            match (r, decode_icmp6_header(slice@)) {
                (Ok((h, rest)), Ok((d, tail))) => h == d && rest@ == tail,
                (Err(e), Err(d)) => e == d,
                _ => false,
            },
    {
        let s = Icmp6HeaderSlice::from_slice(slice)?;
        let header = s.to_header();
        Ok((header, vstd::slice::slice_subrange(slice, Icmp6Header::SERIALIZED_SIZE, slice.len())))
    }
}

/// A byte slice holding exactly the eight bytes of an ICMPv6 header. Its
/// view is those bytes.
#[derive(Debug)]
pub struct Icmp6HeaderSlice<'a> {
    slice: &'a [u8],
}

impl<'a> View for Icmp6HeaderSlice<'a> {
    type V = Seq<u8>;

    closed spec fn view(&self) -> Seq<u8> {
        self.slice@
    }
}

impl<'a> Clone for Icmp6HeaderSlice<'a> {
    fn clone(&self) -> (r: Self)
        ensures
            r@ == self@,
    {
        proof {
            use_type_invariant(self);
        }
        Icmp6HeaderSlice { slice: self.slice }
    }
}

impl<'a> Icmp6HeaderSlice<'a> {
    #[verifier::type_invariant]
    spec fn inv(&self) -> bool {
        self.slice@.len() == Icmp6Header::SERIALIZED_SIZE
    }

    /// Takes the first eight bytes of `slice` as an ICMPv6 header; fails
    /// when there are fewer.
    pub fn from_slice(slice: &'a [u8]) -> (r: Result<Icmp6HeaderSlice<'a>, ReadError>)
        ensures
            r is Ok <==> slice@.len() >= Icmp6Header::SERIALIZED_SIZE,
            r matches Ok(s) ==> s@ == slice@.subrange(0, Icmp6Header::SERIALIZED_SIZE as int),
            r matches Err(e) ==> e == ReadError::UnexpectedEndOfSlice(Icmp6Header::SERIALIZED_SIZE),
    {
        if slice.len() < Icmp6Header::SERIALIZED_SIZE {
            return Err(ReadError::UnexpectedEndOfSlice(Icmp6Header::SERIALIZED_SIZE));
        }
        Ok(Icmp6HeaderSlice { slice: vstd::slice::slice_subrange(slice, 0, Icmp6Header::SERIALIZED_SIZE) })
    }

    /// Decodes every field into an [`Icmp6Header`].
    pub fn to_header(&self) -> (r: Icmp6Header)
        ensures
            r == icmp6_header_of(self@),
    {
        Icmp6Header { icmp_type: self.icmp_type(), icmp_chksum: self.icmp_chksum() }
    }

    /// The message kind, decoded from the type, the code and the last four
    /// bytes.
    pub fn icmp_type(&self) -> (r: Icmp6Type)
        ensures
            r == Icmp6Type::spec_from_bytes(self@[0], self@[1], [self@[4], self@[5], self@[6], self@[7]]),
    {
        proof {
            use_type_invariant(self);
        }
        Icmp6Type::from_bytes(
            self.slice[0],
            self.slice[1],
            [self.slice[4], self.slice[5], self.slice[6], self.slice[7]],
        )
    }

    /// The code: the second byte of the header.
    pub fn icmp_code(&self) -> (r: u8)
        ensures
            r == self@[1],
    {
        proof {
            use_type_invariant(self);
        }
        self.slice[1]
    }

    /// The checksum: the third and fourth bytes in network order.
    pub fn icmp_chksum(&self) -> (r: u16)
        ensures
            r as int == be_u16_value([self@[2], self@[3]]),
    {
        proof {
            use_type_invariant(self);
        }
        u16_from_be_bytes([self.slice[2], self.slice[3]])
    }

    /// The eight bytes of the header.
    pub fn slice(&self) -> (r: &'a [u8])
        ensures
            r@ == self@,
            r@.len() == Icmp6Header::SERIALIZED_SIZE,
    {
        proof {
            use_type_invariant(self);
        }
        self.slice
    }
}

impl<'a> PartialEq for Icmp6HeaderSlice<'a> {
    fn eq(&self, other: &Self) -> (r: bool) {
        bytes_equal(self.slice(), other.slice())
    }
}

impl<'a> vstd::std_specs::cmp::PartialEqSpecImpl for Icmp6HeaderSlice<'a> {
    open spec fn obeys_eq_spec() -> bool {
        true
    }

    open spec fn eq_spec(&self, other: &Icmp6HeaderSlice<'a>) -> bool {
        self@ == other@
    }
}

impl<'a> Eq for Icmp6HeaderSlice<'a> {

}

/// The inputs of the ICMPv6 checksum laid end to end: source and
/// destination address, type and code, the four bytes, the payload.
pub open spec fn icmp6_checksum_inputs(
    source: [u8; 16],
    destination: [u8; 16],
    icmp_type: u8,
    icmp_code: u8,
    four_bytes: [u8; 4],
    payload: Seq<u8>,
) -> Seq<u8> {
    source@ + destination@ + seq![icmp_type, icmp_code] + four_bytes@ + payload
}

/// Determinism: the checksum depends on the addresses, type, code, four
/// bytes and payload alone, so identical inputs give identical checksums.
pub proof fn lemma_icmp6_checksum_deterministic(
    source: [u8; 16],
    destination: [u8; 16],
    icmp_type: u8,
    icmp_code: u8,
    four_bytes: [u8; 4],
    payload: Seq<u8>,
    other_source: [u8; 16],
    other_destination: [u8; 16],
    other_type: u8,
    other_code: u8,
    other_four_bytes: [u8; 4],
    other_payload: Seq<u8>,
)
    requires
        source@ =~= other_source@,
        destination@ =~= other_destination@,
        icmp_type == other_type,
        icmp_code == other_code,
        four_bytes@ =~= other_four_bytes@,
        payload =~= other_payload,
    ensures
        icmp6_checksum(source, destination, icmp_type, icmp_code, four_bytes, payload)
            == icmp6_checksum(
            other_source,
            other_destination,
            other_type,
            other_code,
            other_four_bytes,
            other_payload,
        ),
{
    assert(source == other_source);
    assert(destination == other_destination);
    assert(four_bytes == other_four_bytes);
}

/// Any single changed input byte changes the checksum: two inputs with
/// payloads of the same length, laid end to end, that differ in exactly one
/// byte have different checksums.
pub proof fn lemma_icmp6_checksum_detects_byte_change(
    source: [u8; 16],
    destination: [u8; 16],
    icmp_type: u8,
    icmp_code: u8,
    four_bytes: [u8; 4],
    payload: Seq<u8>,
    other_source: [u8; 16],
    other_destination: [u8; 16],
    other_type: u8,
    other_code: u8,
    other_four_bytes: [u8; 4],
    other_payload: Seq<u8>,
    i: int,
)
    requires
        payload.len() == other_payload.len(),
        0 <= i < payload.len() + 38,
        ({
            let a = icmp6_checksum_inputs(source, destination, icmp_type, icmp_code, four_bytes, payload);
            let b = icmp6_checksum_inputs(
                other_source,
                other_destination,
                other_type,
                other_code,
                other_four_bytes,
                other_payload,
            );
            a[i] != b[i] && b == a.update(i, b[i])
        }),
    ensures
        icmp6_checksum(source, destination, icmp_type, icmp_code, four_bytes, payload)
            != icmp6_checksum(
            other_source,
            other_destination,
            other_type,
            other_code,
            other_four_bytes,
            other_payload,
        ),
{
    let a = icmp6_checksum_inputs(source, destination, icmp_type, icmp_code, four_bytes, payload);
    let b = icmp6_checksum_inputs(
        other_source,
        other_destination,
        other_type,
        other_code,
        other_four_bytes,
        other_payload,
    );
    let x = icmp6_checksum_bytes(source, destination, icmp_type, icmp_code, four_bytes, payload);
    let y = icmp6_checksum_bytes(
        other_source,
        other_destination,
        other_type,
        other_code,
        other_four_bytes,
        other_payload,
    );
    let k = if i < 32 { i } else { i + 4 };
    assert forall|j: int| 0 <= j < x.len() && j != k implies x[j] == y[j] by {
        if j < 32 {
            assert(x[j] == a[j] && y[j] == b[j]);
        } else if j >= 36 {
            assert(x[j] == a[j - 4] && y[j] == b[j - 4]);
        }
    }
    assert(x[k] == a[i] && y[k] == b[i]);
    assert(y =~= x.update(k, b[i]));
    lemma_checksum_detects_byte_change(x, k, b[i]);
}

} // verus!
