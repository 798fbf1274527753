//! Generic IPv6 extension headers: those whose first two bytes are the next
//! header and the length in 8-octet units (not counting the first unit).
use vstd::prelude::*;

use crate::bytes::{bytes_equal, copy_bytes};
use crate::errors::{ReadError, ValueError};
use crate::ip_number::{HIP, IPV6_DEST_OPTIONS, IPV6_HOP_BY_HOP, IPV6_ROUTE, MOBILITY, SHIM6};

verus! {

/// Largest number of extension headers in one packet (RFC 8200 and the
/// IANA protocol numbers).
pub const IPV6_MAX_NUM_HEADER_EXTENSIONS: usize = 12;

/// A payload length that a generic extension header can carry.
pub open spec fn valid_payload_len(n: int) -> bool {
    &&& Ipv6RawExtensionHeader::MIN_PAYLOAD_LEN <= n <= Ipv6RawExtensionHeader::MAX_PAYLOAD_LEN
    &&& (n + 2) % 8 == 0
}

/// The length byte written for a payload of `n` bytes.
pub open spec fn length_byte_of(n: int) -> int {
    (n - 6) / 8
}

/// The whole size on the wire of a header whose length byte is `b`.
pub open spec fn total_len_of(b: u8) -> int {
    (b as int + 1) * 8
}

/// The protocol numbers whose headers follow the generic layout.
pub open spec fn supported_header_type(next_header: u8) -> bool {
    next_header == IPV6_HOP_BY_HOP || next_header == IPV6_ROUTE || next_header
        == IPV6_DEST_OPTIONS || next_header == MOBILITY || next_header == HIP || next_header
        == SHIM6
}

/// The bytes of a header with the given next header and payload, as written.
pub open spec fn encode_extension_header(next_header: u8, payload: Seq<u8>) -> Seq<u8> {
    seq![next_header, length_byte_of(payload.len() as int) as u8] + payload
}

/// What a decoder makes of `bytes`: the next header, the payload and the
/// bytes that follow the header, or the error.
pub open spec fn decode_extension_header(bytes: Seq<u8>) -> Result<
    (u8, Seq<u8>, Seq<u8>),
    ReadError,
> {
    if bytes.len() < 8 {
        Err(ReadError::UnexpectedEndOfSlice(8))
    } else if bytes.len() < total_len_of(bytes[1]) {
        Err(ReadError::UnexpectedEndOfSlice(total_len_of(bytes[1]) as usize))
    } else {
        let total = total_len_of(bytes[1]);
        Ok((bytes[0], bytes.subrange(2, total), bytes.subrange(total, bytes.len() as int)))
    }
}

/// The error that a payload of `n` bytes is refused with, if any.
pub open spec fn payload_len_error(n: usize) -> Option<ValueError> {
    if n < Ipv6RawExtensionHeader::MIN_PAYLOAD_LEN {
        Some(ValueError::Ipv6ExtensionPayloadTooSmall(n))
    } else if n > Ipv6RawExtensionHeader::MAX_PAYLOAD_LEN {
        Some(ValueError::Ipv6ExtensionPayloadTooLarge(n))
    } else if (n + 2) % 8 != 0 {
        Some(ValueError::Ipv6ExtensionPayloadLengthUnaligned(n))
    } else {
        None
    }
}

/// The whole size on the wire of a header whose length byte is
/// `length_byte`: one 8-octet unit more than the byte says.
pub fn total_len(length_byte: u8) -> (r: usize)
    ensures
        r == total_len_of(length_byte),
        8 <= r <= Ipv6RawExtensionHeader::MAX_PAYLOAD_LEN + 2,
        valid_payload_len(r - 2),
{
    ((length_byte as usize) + 1) * 8
}

/// Checks a payload length; `None` exactly for the lengths that a header
/// can carry.
fn check_payload_len(n: usize) -> (r: Option<ValueError>)
    ensures
        r == payload_len_error(n),
        r is None <==> valid_payload_len(n as int),
{
    if n < Ipv6RawExtensionHeader::MIN_PAYLOAD_LEN {
        Some(ValueError::Ipv6ExtensionPayloadTooSmall(n))
    } else if n > Ipv6RawExtensionHeader::MAX_PAYLOAD_LEN {
        Some(ValueError::Ipv6ExtensionPayloadTooLarge(n))
    } else if (n + 2) % 8 != 0 {
        Some(ValueError::Ipv6ExtensionPayloadLengthUnaligned(n))
    } else {
        None
    }
}

/// The stored payload; its length always suits the generic layout.
#[derive(Debug)]
struct PayloadBuffer {
    bytes: Vec<u8>,
}

impl PayloadBuffer {
    #[verifier::type_invariant]
    spec fn inv(&self) -> bool {
        valid_payload_len(self.bytes@.len() as int)
    }
}

/// The abstract value of an [`Ipv6RawExtensionHeader`].
pub ghost struct RawExtensionModel {
    /// IP protocol number of what follows the header.
    pub next_header: u8,
    /// The bytes after the length byte.
    pub payload: Seq<u8>,
}

/// Raw IPv6 extension header: next header and undecoded payload.
///
/// Only headers whose first two bytes are the next header and the length in
/// 8-octet units (minus the first 8 octets) fit; this leaves out the
/// Authentication Header and the Encapsulating Security Payload. Its view
/// holds the next header and the payload, whose length always satisfies
/// [`valid_payload_len`].
#[derive(Debug)]
pub struct Ipv6RawExtensionHeader {
    /// IP protocol number of the next header or transport layer protocol.
    pub next_header: u8,
    payload_buffer: PayloadBuffer,
}

impl View for Ipv6RawExtensionHeader {
    type V = RawExtensionModel;

    closed spec fn view(&self) -> RawExtensionModel {
        RawExtensionModel { next_header: self.next_header, payload: self.payload_buffer.bytes@ }
    }
}

impl Ipv6RawExtensionHeader {
    /// Smallest payload of a generic extension header.
    pub const MIN_PAYLOAD_LEN: usize = 6;

    /// Largest payload of a generic extension header.
    pub const MAX_PAYLOAD_LEN: usize = 2046;

    /// Whether headers of this protocol number follow the generic layout
    /// (Hop-by-Hop, Routing, Destination Options, Mobility, HIP, Shim6).
    pub fn header_type_supported(next_header: u8) -> (r: bool)
        ensures
            r == supported_header_type(next_header),
    {
        next_header == IPV6_HOP_BY_HOP || next_header == IPV6_ROUTE || next_header
            == IPV6_DEST_OPTIONS || next_header == MOBILITY || next_header == HIP || next_header
            == SHIM6
    }

    /// Creates a header from the next header and the payload (the bytes
    /// after the length byte). The payload must be 6 to 2046 bytes long
    /// and its length plus 2 a multiple of 8.
    pub fn new_raw(next_header: u8, payload: &[u8]) -> (r: Result<Ipv6RawExtensionHeader, ValueError>)
        ensures
            r is Ok <==> valid_payload_len(payload@.len() as int),
            r matches Ok(h) ==> h@.next_header == next_header && h@.payload == payload@,
            r matches Err(e) ==> payload_len_error(payload.len()) == Some(e),
    {
        match check_payload_len(payload.len()) {
            Some(e) => Err(e),
            None => {
                let bytes = copy_bytes(payload);
                Ok(Ipv6RawExtensionHeader { next_header, payload_buffer: PayloadBuffer { bytes } })
            },
        }
    }

    /// The payload: every byte after the length byte.
    pub fn payload(&self) -> (r: &[u8])
        ensures
            r@ == self@.payload,
            valid_payload_len(r@.len() as int),
    {
        proof {
            use_type_invariant(&self.payload_buffer);
        }
        self.payload_buffer.bytes.as_slice()
    }

    /// Replaces the payload, under the same length rules as [`Self::new_raw`].
    /// A refused payload leaves the header unchanged.
    pub fn set_payload(&mut self, payload: &[u8]) -> (r: Result<(), ValueError>)
        ensures
            r is Ok <==> valid_payload_len(payload@.len() as int),
            r is Ok ==> final(self)@.payload == payload@,
            r matches Err(e) ==> payload_len_error(payload.len()) == Some(e) && final(self)@
                == old(self)@,
            final(self)@.next_header == old(self)@.next_header,
    {
        match check_payload_len(payload.len()) {
            Some(e) => Err(e),
            None => {
                let bytes = copy_bytes(payload);
                self.payload_buffer = PayloadBuffer { bytes };
                Ok(())
            },
        }
    }

    /// The value of the length byte: the size in 8-octet units, not
    /// counting the first 8 octets.
    pub fn header_length(&self) -> (r: u8)
        ensures
            r as int == length_byte_of(self@.payload.len() as int),
            total_len_of(r) == self@.payload.len() + 2,
    {
        proof {
            use_type_invariant(&self.payload_buffer);
        }
        ((self.payload_buffer.bytes.len() - 6) / 8) as u8
    }

    /// Size of the header on the wire, in bytes.
    pub fn header_len(&self) -> (r: usize)
        ensures
            r == self@.payload.len() + 2,
    {
        proof {
            use_type_invariant(&self.payload_buffer);
        }
        2 + self.payload_buffer.bytes.len()
    }

    /// Appends the header's bytes to `out`: next header, length byte, payload.
    pub fn write(&self, out: &mut Vec<u8>)
        ensures
            final(out)@ == old(out)@ + encode_extension_header(self@.next_header, self@.payload),
    {
        let length = self.header_length();
        out.push(self.next_header);
        out.push(length);
        let payload = self.payload();
        let mut i: usize = 0;
        while i < payload.len()
            invariant
                i <= payload@.len(),
                out@ == old(out)@ + seq![self.next_header, length] + payload@.subrange(0, i as int),
            decreases payload@.len() - i,
        {
            out.push(payload[i]);
            assert(payload@.subrange(0, i + 1) =~= payload@.subrange(0, i as int).push(payload@[i as int]));
            i = i + 1;
        }
        assert(payload@.subrange(0, i as int) =~= payload@);
        assert(out@ =~= old(out)@ + encode_extension_header(self@.next_header, self@.payload));
    }

    /// Decodes a header at the start of `slice` and returns it with the
    /// bytes that follow it.
    pub fn from_slice(slice: &[u8]) -> (r: Result<(Ipv6RawExtensionHeader, &[u8]), ReadError>)
        ensures
            match (r, decode_extension_header(slice@)) {
                (Ok((h, rest)), Ok((n, p, tail))) => h@.next_header == n && h@.payload == p && rest@ == tail,
                (Err(e), Err(d)) => e == d,
                _ => false,
            },
    {
        let s = Ipv6RawExtensionHeaderSlice::from_slice(slice)?;
        let rest = vstd::slice::slice_subrange(slice, s.slice().len(), slice.len());
        let header = s.to_header();
        Ok((header, rest))
    }
}

impl Clone for Ipv6RawExtensionHeader {
    fn clone(&self) -> (r: Self)
        ensures
            r@ == self@,
    {
        let bytes = copy_bytes(self.payload());
        Ipv6RawExtensionHeader { next_header: self.next_header, payload_buffer: PayloadBuffer { bytes } }
    }
}

impl PartialEq for Ipv6RawExtensionHeader {
    fn eq(&self, other: &Self) -> (r: bool) {
        self.next_header == other.next_header && bytes_equal(self.payload(), other.payload())
    }
}

impl vstd::std_specs::cmp::PartialEqSpecImpl for Ipv6RawExtensionHeader {
    open spec fn obeys_eq_spec() -> bool {
        true
    }

    open spec fn eq_spec(&self, other: &Ipv6RawExtensionHeader) -> bool {
        self@ == other@
    }
}

impl Eq for Ipv6RawExtensionHeader {

}

/// A byte slice holding exactly one generic IPv6 extension header. Its view
/// is those bytes: at least 8, and as many as the length byte gives.
#[derive(Debug)]
pub struct Ipv6RawExtensionHeaderSlice<'a> {
    slice: &'a [u8],
}

impl<'a> View for Ipv6RawExtensionHeaderSlice<'a> {
    type V = Seq<u8>;

    closed spec fn view(&self) -> Seq<u8> {
        self.slice@
    }
}

impl<'a> Clone for Ipv6RawExtensionHeaderSlice<'a> {
    fn clone(&self) -> (r: Self)
        ensures
            r@ == self@,
    {
        proof {
            use_type_invariant(self);
        }
        Ipv6RawExtensionHeaderSlice { slice: self.slice }
    }
}

impl<'a> Ipv6RawExtensionHeaderSlice<'a> {
    #[verifier::type_invariant]
    spec fn inv(&self) -> bool {
        &&& self.slice@.len() >= 8
        &&& self.slice@.len() == total_len_of(self.slice@[1])
    }

    /// Whether headers of this protocol number follow the generic layout.
    pub fn header_type_supported(next_header: u8) -> (r: bool)
        ensures
            r == supported_header_type(next_header),
    {
        Ipv6RawExtensionHeader::header_type_supported(next_header)
    }

    /// Takes the header at the start of `slice`, checking first that the
    /// slice is at least 8 bytes long and then that it holds as many bytes as
    /// the length byte gives.
    pub fn from_slice(slice: &'a [u8]) -> (r: Result<Ipv6RawExtensionHeaderSlice<'a>, ReadError>)
        ensures
            match (r, decode_extension_header(slice@)) {
                (Ok(s), Ok((n, p, tail))) => s@ == seq![n, slice@[1]] + p && s@ + tail == slice@,
                (Err(e), Err(d)) => e == d,
                _ => false,
            },
            r matches Ok(s) ==> s@ == slice@.subrange(0, total_len_of(slice@[1])),
    {
        if slice.len() < 8 {
            return Err(ReadError::UnexpectedEndOfSlice(8));
        }
        let len = total_len(slice[1]);
        if slice.len() < len {
            return Err(ReadError::UnexpectedEndOfSlice(len));
        }
        let r = Ipv6RawExtensionHeaderSlice { slice: vstd::slice::slice_subrange(slice, 0, len) };
        proof {
            let total = total_len_of(slice@[1]);
            assert(r@ =~= seq![slice@[0], slice@[1]] + slice@.subrange(2, total));
            assert(r@ + slice@.subrange(total, slice@.len() as int) =~= slice@);
        }
        Ok(r)
    }

    /// Takes the header at the start of `slice` when the caller already knows
    /// that the slice holds at least 8 bytes and as many as the length byte
    /// gives.
    pub fn from_slice_unchecked(slice: &'a [u8]) -> (r: Ipv6RawExtensionHeaderSlice<'a>)
        requires
            slice@.len() >= 8,
            slice@.len() >= total_len_of(slice@[1]),
        ensures
            r@ == slice@.subrange(0, total_len_of(slice@[1])),
    {
        let len = total_len(slice[1]);
        Ipv6RawExtensionHeaderSlice { slice: vstd::slice::slice_subrange(slice, 0, len) }
    }

    /// The bytes of the header.
    pub fn slice(&self) -> (r: &'a [u8])
        ensures
            r@ == self@,
            r@.len() >= 8,
            r@.len() == total_len_of(r@[1]),
    {
        proof {
            use_type_invariant(self);
        }
        self.slice
    }

    /// IP protocol number of the next header or transport layer protocol.
    pub fn next_header(&self) -> (r: u8)
        ensures
            r == self@[0],
    {
        proof {
            use_type_invariant(self);
        }
        self.slice[0]
    }

    /// Every byte after the length byte, up to the end of the header.
    pub fn payload(&self) -> (r: &'a [u8])
        ensures
            r@ == self@.subrange(2, self@.len() as int),
            valid_payload_len(r@.len() as int),
    {
        proof {
            use_type_invariant(self);
        }
        vstd::slice::slice_subrange(self.slice, 2, self.slice.len())
    }

    /// Copies the header into an [`Ipv6RawExtensionHeader`]; this never fails,
    /// as the length of every such slice suits the generic layout.
    pub fn to_header(&self) -> (r: Ipv6RawExtensionHeader)
        ensures
            r@.next_header == self@[0],
            r@.payload == self@.subrange(2, self@.len() as int),
    {
        let next_header = self.next_header();
        let payload = self.payload();
        let bytes = copy_bytes(payload);
        Ipv6RawExtensionHeader { next_header, payload_buffer: PayloadBuffer { bytes } }
    }
}

impl<'a> PartialEq for Ipv6RawExtensionHeaderSlice<'a> {
    fn eq(&self, other: &Self) -> (r: bool) {
        bytes_equal(self.slice(), other.slice())
    }
}

impl<'a> vstd::std_specs::cmp::PartialEqSpecImpl for Ipv6RawExtensionHeaderSlice<'a> {
    open spec fn obeys_eq_spec() -> bool {
        true
    }

    open spec fn eq_spec(&self, other: &Ipv6RawExtensionHeaderSlice<'a>) -> bool {
        self@ == other@
    }
}

impl<'a> Eq for Ipv6RawExtensionHeaderSlice<'a> {

}


/// The length byte of a valid payload gives back the header's whole size.
pub proof fn lemma_length_byte_total(n: int)
    requires
        valid_payload_len(n),
    ensures
        0 <= length_byte_of(n) <= 255,
        total_len_of(length_byte_of(n) as u8) == n + 2,
{
    assert((n - 6) / 8 * 8 == n - 6) by {
        assert((n - 6) % 8 == 0);
    }
}

/// Round trip: decoding the bytes written for a header with a valid payload
/// gives back its next header and payload, and leaves no bytes over.
pub proof fn lemma_extension_header_round_trip(next_header: u8, payload: Seq<u8>)
    requires
        valid_payload_len(payload.len() as int),
    ensures
        decode_extension_header(encode_extension_header(next_header, payload)) == Ok::<
            (u8, Seq<u8>, Seq<u8>),
            ReadError,
        >((next_header, payload, Seq::<u8>::empty())),
{
    let bytes = encode_extension_header(next_header, payload);
    lemma_length_byte_total(payload.len() as int);
    let total = total_len_of(bytes[1]);
    assert(total == bytes.len());
    assert(bytes.subrange(2, total) =~= payload);
    assert(bytes.subrange(total, bytes.len() as int) =~= Seq::<u8>::empty());
}

} // verus!
