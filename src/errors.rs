use vstd::prelude::*;

verus! {

/// Errors raised while decoding a header from a byte slice.
#[derive(Clone, Copy, Debug, PartialEq, Eq, Structural)]
pub enum ReadError {
    /// The slice is shorter than the given number of bytes, which the
    /// header needs at the least.
    UnexpectedEndOfSlice(usize),
}

/// Errors raised when a value handed to a constructor or setter does not
/// fit the header it is meant for.
#[derive(Clone, Copy, Debug, PartialEq, Eq, Structural)]
pub enum ValueError {
    /// Extension header payload shorter than 6 bytes (carries the length).
    Ipv6ExtensionPayloadTooSmall(usize),
    /// Extension header payload longer than 2046 bytes (carries the length).
    Ipv6ExtensionPayloadTooLarge(usize),
    /// Extension header payload whose length plus 2 is not a multiple of 8
    /// (carries the length).
    Ipv6ExtensionPayloadLengthUnaligned(usize),
    /// Payload too long for the length field of the checksum pseudo-header
    /// (carries the length).
    Ipv6PayloadLengthTooLarge(usize),
}

impl ReadError {
    /// The number of bytes that the decoder needed at the least.
    pub fn unexpected_end_of_slice_min_expected_size(&self) -> (r: Option<usize>)
        ensures
            r == (match *self {
                ReadError::UnexpectedEndOfSlice(n) => Some(n),
            }),
    {
        match self {
            ReadError::UnexpectedEndOfSlice(n) => Some(*n),
        }
    }
}

} // verus!
