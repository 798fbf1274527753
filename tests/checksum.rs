use etherparse::big_endian::{u16_from_be_bytes, u16_to_be_bytes, u32_from_be_bytes, u32_to_be_bytes};
use etherparse::checksum::{add_words, ones_complement};

#[test]
fn rfc1071_example() {
    let bytes = [0x00, 0x01, 0xf2, 0x03, 0xf4, 0xf5, 0xf6, 0xf7];
    assert_eq!(add_words(0, &bytes), 0x2ddf0);
    assert_eq!(ones_complement(add_words(0, &bytes)), 0x220d);
}

#[test]
fn words_of_odd_length_pad_with_zero() {
    assert_eq!(add_words(0, &[1]), 0x100);
    assert_eq!(add_words(5, &[0x12, 0x34, 0x56]), 5 + 0x1234 + 0x5600);
    assert_eq!(ones_complement(add_words(0, &[1])), 0xfeff);
}

#[test]
fn ones_complement_edge_values() {
    assert_eq!(ones_complement(0), 0xffff);
    assert_eq!(ones_complement(0xffff), 0);
    assert_eq!(ones_complement(0x1_fffe), 0);
    assert_eq!(ones_complement(0x1_0000), 0xfffe);
    assert_eq!(ones_complement(add_words(0, &[])), 0xffff);
}

#[test]
fn big_endian_conversions() {
    assert_eq!(u16_from_be_bytes([0x12, 0x34]), 0x1234);
    assert_eq!(u16_to_be_bytes(0xabcd), [0xab, 0xcd]);
    assert_eq!(u32_from_be_bytes([0, 0, 5, 0xd0]), 1488);
    assert_eq!(u32_to_be_bytes(0xdead_beef), [0xde, 0xad, 0xbe, 0xef]);
    for v in [0u32, 1, 255, 256, 65535, 0x0102_0304, u32::MAX] {
        assert_eq!(u32_from_be_bytes(u32_to_be_bytes(v)), v);
        assert_eq!(u32_to_be_bytes(v), v.to_be_bytes());
    }
}

#[test]
fn unexpected_end_of_slice_min_expected_size() {
    assert_eq!(
        etherparse::ReadError::UnexpectedEndOfSlice(123).unexpected_end_of_slice_min_expected_size(),
        Some(123)
    );
}
