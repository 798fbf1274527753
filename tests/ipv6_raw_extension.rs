use etherparse::ip_number::{HIP, IPV6_DEST_OPTIONS, IPV6_HOP_BY_HOP, IPV6_ICMP, IPV6_ROUTE, MOBILITY, SHIM6};
use etherparse::ipv6_raw_extension::total_len;
use etherparse::{Ipv6RawExtensionHeader, Ipv6RawExtensionHeaderSlice, ReadError, ValueError};

fn payload_of_len(n: usize) -> Vec<u8> {
    (0..n).map(|i| (i % 251) as u8).collect()
}

fn is_valid_len(n: usize) -> bool {
    n >= 6 && n <= 2046 && (n + 2) % 8 == 0
}

#[test]
fn new_raw_accepts_every_valid_length() {
    for n in 0..=3000usize {
        if !is_valid_len(n) {
            continue;
        }
        let payload = payload_of_len(n);
        let header = Ipv6RawExtensionHeader::new_raw(17, &payload).unwrap();
        assert_eq!(header.payload().len(), n);
        assert_eq!(header.payload(), &payload[..]);
        assert_eq!(header.next_header, 17);
        assert_eq!(header.header_len(), n + 2);
        assert_eq!(usize::from(header.header_length()), (n - 6) / 8);
    }
}

#[test]
fn new_raw_refuses_every_other_length_with_its_error() {
    for n in 0..=3000usize {
        if is_valid_len(n) {
            continue;
        }
        let payload = payload_of_len(n);
        let expected = if n < 6 {
            ValueError::Ipv6ExtensionPayloadTooSmall(n)
        } else if n > 2046 {
            ValueError::Ipv6ExtensionPayloadTooLarge(n)
        } else {
            ValueError::Ipv6ExtensionPayloadLengthUnaligned(n)
        };
        assert_eq!(Ipv6RawExtensionHeader::new_raw(0, &payload).unwrap_err(), expected);
    }
}

#[test]
fn new_raw_edge_lengths() {
    assert_eq!(
        Ipv6RawExtensionHeader::new_raw(0, &[]).unwrap_err(),
        ValueError::Ipv6ExtensionPayloadTooSmall(0)
    );
    assert_eq!(
        Ipv6RawExtensionHeader::new_raw(0, &[0; 5]).unwrap_err(),
        ValueError::Ipv6ExtensionPayloadTooSmall(5)
    );
    assert!(Ipv6RawExtensionHeader::new_raw(0, &[0; 6]).is_ok());
    assert_eq!(
        Ipv6RawExtensionHeader::new_raw(0, &[0; 7]).unwrap_err(),
        ValueError::Ipv6ExtensionPayloadLengthUnaligned(7)
    );
    assert!(Ipv6RawExtensionHeader::new_raw(0, &[0; 14]).is_ok());
    assert!(Ipv6RawExtensionHeader::new_raw(0, &[0; 2046]).is_ok());
    assert_eq!(
        Ipv6RawExtensionHeader::new_raw(0, &[0; 2054]).unwrap_err(),
        ValueError::Ipv6ExtensionPayloadTooLarge(2054)
    );
    assert_eq!(
        Ipv6RawExtensionHeader::new_raw(0, &[0; 2047]).unwrap_err(),
        ValueError::Ipv6ExtensionPayloadTooLarge(2047)
    );
}

#[test]
fn set_payload_replaces_or_leaves_unchanged() {
    let mut header = Ipv6RawExtensionHeader::new_raw(IPV6_ROUTE, &[1, 2, 3, 4, 5, 6]).unwrap();
    let longer = payload_of_len(22);
    header.set_payload(&longer).unwrap();
    assert_eq!(header.payload(), &longer[..]);
    assert_eq!(header.next_header, IPV6_ROUTE);
    assert_eq!(header.header_length(), 2);

    assert_eq!(
        header.set_payload(&[0; 9]).unwrap_err(),
        ValueError::Ipv6ExtensionPayloadLengthUnaligned(9)
    );
    assert_eq!(header.set_payload(&[0; 3]).unwrap_err(), ValueError::Ipv6ExtensionPayloadTooSmall(3));
    assert_eq!(
        header.set_payload(&[0; 3000]).unwrap_err(),
        ValueError::Ipv6ExtensionPayloadTooLarge(3000)
    );
    assert_eq!(header.payload(), &longer[..]);
}

#[test]
fn write_then_from_slice_round_trip() {
    for n in (6..=2046usize).step_by(8) {
        let payload = payload_of_len(n);
        let header = Ipv6RawExtensionHeader::new_raw(IPV6_DEST_OPTIONS, &payload).unwrap();
        let mut bytes = Vec::new();
        header.write(&mut bytes);
        assert_eq!(bytes.len(), n + 2);
        assert_eq!(bytes[0], IPV6_DEST_OPTIONS);
        assert_eq!(usize::from(bytes[1]), (n - 6) / 8);
        assert_eq!(&bytes[2..], &payload[..]);
        let (decoded, rest) = Ipv6RawExtensionHeader::from_slice(&bytes).unwrap();
        assert_eq!(decoded, header);
        assert!(rest.is_empty());
    }
}

#[test]
fn write_appends_after_existing_bytes() {
    let header = Ipv6RawExtensionHeader::new_raw(6, &[9, 8, 7, 6, 5, 4]).unwrap();
    let mut bytes = vec![0xaa, 0xbb];
    header.write(&mut bytes);
    assert_eq!(bytes, vec![0xaa, 0xbb, 6, 0, 9, 8, 7, 6, 5, 4]);
}

#[test]
fn from_slice_returns_the_bytes_that_follow() {
    let bytes = [IPV6_ICMP, 0, 1, 2, 3, 4, 5, 6, 0xde, 0xad];
    let (header, rest) = Ipv6RawExtensionHeader::from_slice(&bytes).unwrap();
    assert_eq!(header.next_header, IPV6_ICMP);
    assert_eq!(header.payload(), &[1, 2, 3, 4, 5, 6]);
    assert_eq!(rest, &[0xde, 0xad]);
}

#[test]
fn from_slice_errors() {
    assert_eq!(
        Ipv6RawExtensionHeader::from_slice(&[6, 0, 1, 2, 3, 4, 5]).unwrap_err(),
        ReadError::UnexpectedEndOfSlice(8)
    );
    assert_eq!(
        Ipv6RawExtensionHeader::from_slice(&[6, 1, 1, 2, 3, 4, 5, 6, 7, 8]).unwrap_err(),
        ReadError::UnexpectedEndOfSlice(16)
    );
}

#[test]
fn slice_view_of_eight_bytes() {
    let bytes = [6, 0, 1, 2, 3, 4, 5, 6];
    let view = Ipv6RawExtensionHeaderSlice::from_slice(&bytes).unwrap();
    assert_eq!(view.payload().len(), 6);
    assert_eq!(view.payload(), &[1, 2, 3, 4, 5, 6]);
    assert_eq!(view.next_header(), 6);
    assert_eq!(view.slice(), &bytes[..]);
}

#[test]
fn slice_view_of_seven_bytes_needs_eight() {
    let bytes = [6, 0, 1, 2, 3, 4, 5];
    assert_eq!(
        Ipv6RawExtensionHeaderSlice::from_slice(&bytes).unwrap_err(),
        ReadError::UnexpectedEndOfSlice(8)
    );
    assert_eq!(
        Ipv6RawExtensionHeaderSlice::from_slice(&bytes)
            .unwrap_err()
            .unexpected_end_of_slice_min_expected_size(),
        Some(8)
    );
}

#[test]
fn slice_view_claiming_two_units_needs_sixteen() {
    let bytes = [6, 1, 1, 2, 3, 4, 5, 6, 7, 8];
    assert_eq!(
        Ipv6RawExtensionHeaderSlice::from_slice(&bytes).unwrap_err(),
        ReadError::UnexpectedEndOfSlice(16)
    );
}

#[test]
fn slice_view_narrows_to_the_header() {
    let mut bytes: Vec<u8> = vec![44, 1];
    bytes.extend(1..=14u8);
    bytes.extend([0xff, 0xfe, 0xfd]);
    let view = Ipv6RawExtensionHeaderSlice::from_slice(&bytes).unwrap();
    assert_eq!(view.slice(), &bytes[..16]);
    assert_eq!(view.payload(), &bytes[2..16]);
    let header = view.to_header();
    assert_eq!(header.next_header, 44);
    assert_eq!(header.payload(), &bytes[2..16]);
    assert_eq!(header.header_len(), 16);
}

#[test]
fn slice_view_unchecked_matches_checked() {
    let bytes = [17, 0, 1, 2, 3, 4, 5, 6, 7, 8, 9];
    let checked = Ipv6RawExtensionHeaderSlice::from_slice(&bytes).unwrap();
    let unchecked = Ipv6RawExtensionHeaderSlice::from_slice_unchecked(&bytes);
    assert_eq!(checked, unchecked);
    assert_eq!(unchecked.slice(), &bytes[..8]);
}

#[test]
fn slice_view_equality_ignores_trailing_bytes() {
    let a = [6, 0, 1, 2, 3, 4, 5, 6, 100];
    let b = [6, 0, 1, 2, 3, 4, 5, 6, 200, 201];
    let c = [6, 0, 1, 2, 3, 4, 5, 7];
    let va = Ipv6RawExtensionHeaderSlice::from_slice(&a).unwrap();
    let vb = Ipv6RawExtensionHeaderSlice::from_slice(&b).unwrap();
    let vc = Ipv6RawExtensionHeaderSlice::from_slice(&c).unwrap();
    assert_eq!(va, vb);
    assert_ne!(va, vc);
    assert_eq!(va.clone(), va);
}

#[test]
fn header_equality_and_clone() {
    let a = Ipv6RawExtensionHeader::new_raw(1, &[1, 2, 3, 4, 5, 6]).unwrap();
    let b = Ipv6RawExtensionHeader::new_raw(1, &[1, 2, 3, 4, 5, 6]).unwrap();
    let c = Ipv6RawExtensionHeader::new_raw(2, &[1, 2, 3, 4, 5, 6]).unwrap();
    let d = Ipv6RawExtensionHeader::new_raw(1, &[1, 2, 3, 4, 5, 7]).unwrap();
    assert_eq!(a, b);
    assert_ne!(a, c);
    assert_ne!(a, d);
    assert_eq!(a.clone(), a);
}

#[test]
fn every_slice_view_converts_to_a_header() {
    for unit in 0..=255u8 {
        let total = (usize::from(unit) + 1) * 8;
        assert_eq!(total_len(unit), total);
        let mut bytes = vec![IPV6_HOP_BY_HOP, unit];
        bytes.extend(payload_of_len(total - 2));
        let view = Ipv6RawExtensionHeaderSlice::from_slice(&bytes).unwrap();
        let header = view.to_header();
        assert_eq!(header.payload().len(), total - 2);
        assert_eq!(header.header_length(), unit);
    }
}

#[test]
fn header_type_supported_values() {
    for n in 0..=255u8 {
        let expected = [IPV6_HOP_BY_HOP, IPV6_ROUTE, IPV6_DEST_OPTIONS, MOBILITY, HIP, SHIM6].contains(&n);
        assert_eq!(Ipv6RawExtensionHeader::header_type_supported(n), expected);
        assert_eq!(Ipv6RawExtensionHeaderSlice::header_type_supported(n), expected);
    }
    assert!(Ipv6RawExtensionHeader::header_type_supported(0));
    assert!(Ipv6RawExtensionHeader::header_type_supported(43));
    assert!(!Ipv6RawExtensionHeader::header_type_supported(51));
    assert!(!Ipv6RawExtensionHeader::header_type_supported(50));
}

#[test]
fn constants() {
    assert_eq!(Ipv6RawExtensionHeader::MIN_PAYLOAD_LEN, 6);
    assert_eq!(Ipv6RawExtensionHeader::MAX_PAYLOAD_LEN, 2046);
}
