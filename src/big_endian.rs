//! Big-endian (network order) conversion between integers and bytes.
use vstd::prelude::*;

verus! {

/// The value of two bytes read in network order.
pub open spec fn be_u16_value(b: [u8; 2]) -> int {
    b[0] as int * 0x100 + b[1] as int
}

/// The value of four bytes read in network order.
pub open spec fn be_u32_value(b: [u8; 4]) -> int {
    b[0] as int * 0x100_0000 + b[1] as int * 0x1_0000 + b[2] as int * 0x100 + b[3] as int
}

/// The two bytes of `v` in network order.
pub open spec fn be_u16_bytes(v: u16) -> [u8; 2] {
    [(v / 0x100) as u8, (v % 0x100) as u8]
}

/// The four bytes of `v` in network order.
pub open spec fn be_u32_bytes(v: u32) -> [u8; 4] {
    [(v / 0x100_0000) as u8, (v / 0x1_0000 % 0x100) as u8, (v / 0x100 % 0x100) as u8, (v % 0x100) as u8]
}

/// Reads two bytes in network order.
pub fn u16_from_be_bytes(b: [u8; 2]) -> (r: u16)
    ensures
        r as int == be_u16_value(b),
{
    (b[0] as u16) * 0x100 + (b[1] as u16)
}

/// Reads four bytes in network order.
pub fn u32_from_be_bytes(b: [u8; 4]) -> (r: u32)
    ensures
        r as int == be_u32_value(b),
{
    (b[0] as u32) * 0x100_0000 + (b[1] as u32) * 0x1_0000 + (b[2] as u32) * 0x100 + (b[3] as u32)
}

/// Writes a value as two bytes in network order.
pub fn u16_to_be_bytes(v: u16) -> (r: [u8; 2])
    ensures
        r == be_u16_bytes(v),
        be_u16_value(r) == v as int,
{
    let r = [(v / 0x100) as u8, (v % 0x100) as u8];
    assert(be_u16_value(r) == v as int);
    r
}

/// Writes a value as four bytes in network order.
pub fn u32_to_be_bytes(v: u32) -> (r: [u8; 4])
    ensures
        r == be_u32_bytes(v),
        be_u32_value(r) == v as int,
{
    let r = [
        (v / 0x100_0000) as u8,
        (v / 0x1_0000 % 0x100) as u8,
        (v / 0x100 % 0x100) as u8,
        (v % 0x100) as u8,
    ];
    assert(be_u32_value(r) == v as int);
    r
}

/// Reading the bytes of `v` gives `v`.
pub proof fn lemma_be_u16_bytes_value(v: u16)
    ensures
        be_u16_value(be_u16_bytes(v)) == v as int,
{
}

/// Reading the bytes of `v` gives `v`.
pub proof fn lemma_be_u32_bytes_value(v: u32)
    ensures
        be_u32_value(be_u32_bytes(v)) == v as int,
{
}

/// Two byte pairs with the same network-order value are equal.
pub proof fn lemma_be_u16_injective(a: [u8; 2], b: [u8; 2])
    requires
        be_u16_value(a) == be_u16_value(b),
    ensures
        a == b,
{
    assert(a@ =~= b@);
}

/// Two byte quadruples with the same network-order value are equal.
pub proof fn lemma_be_u32_injective(a: [u8; 4], b: [u8; 4])
    requires
        be_u32_value(a) == be_u32_value(b),
    ensures
        a == b,
{
    assert(a@ =~= b@);
}

} // verus!
