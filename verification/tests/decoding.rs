use frame_capture::decoder::{
    be16, classify_ethertype, decode, decode_ethernet, DecodedFrame, EtherTypeKind, EthernetInfo,
    ETHERNET_HEADER_LEN, ETHERTYPE_ARP, ETHERTYPE_IPV4, ETHERTYPE_IPV6, IPV4_ADDRESSES_END,
};
use frame_capture::frame::{Frame, MAX_FRAME_LEN};

fn numbered(length: usize) -> Vec<u8> {
    (0..length).map(|i| (i % 251) as u8).collect()
}

fn with_ethertype(length: usize, high: u8, low: u8) -> Vec<u8> {
    let mut bytes = numbered(length);
    bytes[12] = high;
    bytes[13] = low;
    bytes
}

#[test]
fn ipv4_frame_of_34_bytes_is_decoded_in_full() {
    let mut bytes = vec![0u8; 34];
    bytes[12] = 0x08;
    bytes[13] = 0x00;
    bytes[26..30].copy_from_slice(&[192, 168, 1, 10]);
    bytes[30..34].copy_from_slice(&[192, 168, 1, 1]);
    let info = decode_ethernet(&bytes).expect("a frame of 34 bytes has an Ethernet header");
    assert_eq!(info.ethertype, 0x0800);
    assert_eq!(info.classification, EtherTypeKind::IPv4);
    assert_eq!(info.ipv4, Some(([192, 168, 1, 10], [192, 168, 1, 1])));
    assert_eq!(info.dest_mac, [0u8; 6]);
    assert_eq!(info.src_mac, [0u8; 6]);
}

#[test]
fn frame_of_13_bytes_has_no_ethernet_header() {
    assert_eq!(decode_ethernet(&[0u8; 13]), None);
    assert_eq!(decode_ethernet(&[0xFFu8; 13]), None);
    assert_eq!(decode_ethernet(&numbered(13)), None);
    let mut looks_like_ipv4 = numbered(13);
    looks_like_ipv4[12] = 0x08;
    assert_eq!(decode_ethernet(&looks_like_ipv4), None);
    let frame = Frame::new(numbered(13)).unwrap();
    let decoded = decode(&frame);
    assert_eq!(decoded.ethernet, None);
    assert_eq!(decoded.total_length, 13);
    assert_eq!(decoded.captured_length, 13);
}

#[test]
fn empty_frame_is_decoded() {
    let frame = Frame::new(Vec::new()).unwrap();
    assert_eq!(
        decode(&frame),
        DecodedFrame { total_length: 0, captured_length: 0, timestamp: None, ethernet: None }
    );
}

#[test]
fn every_length_is_decoded_with_the_fields_it_can_hold() {
    let ipv4 = with_ethertype(MAX_FRAME_LEN, 0x08, 0x00);
    let arp = with_ethertype(MAX_FRAME_LEN, 0x08, 0x06);
    for length in 0..=MAX_FRAME_LEN {
        let as_ipv4 = decode_ethernet(&ipv4[..length]);
        let as_arp = decode_ethernet(&arp[..length]);
        assert_eq!(as_ipv4.is_some(), length >= 14, "length {}", length);
        assert_eq!(as_arp.is_some(), length >= 14, "length {}", length);
        if let Some(info) = as_ipv4 {
            assert_eq!(info.classification, EtherTypeKind::IPv4);
            assert_eq!(info.ipv4.is_some(), length >= 34, "length {}", length);
        }
        if let Some(info) = as_arp {
            assert_eq!(info.classification, EtherTypeKind::ARP);
            assert_eq!(info.ipv4, None, "length {}", length);
        }
    }
}

#[test]
fn header_lengths_are_14_and_34() {
    assert_eq!(ETHERNET_HEADER_LEN, 14);
    assert_eq!(IPV4_ADDRESSES_END, 34);
    assert_eq!(MAX_FRAME_LEN, 65536);
}

#[test]
fn frame_of_14_bytes_has_header_and_no_addresses() {
    let bytes = with_ethertype(14, 0x08, 0x00);
    assert_eq!(
        decode_ethernet(&bytes),
        Some(EthernetInfo {
            dest_mac: [0, 1, 2, 3, 4, 5],
            src_mac: [6, 7, 8, 9, 10, 11],
            ethertype: 0x0800,
            classification: EtherTypeKind::IPv4,
            ipv4: None,
        })
    );
}

#[test]
fn ipv4_frame_of_33_bytes_has_no_addresses() {
    let info = decode_ethernet(&with_ethertype(33, 0x08, 0x00)).unwrap();
    assert_eq!(info.classification, EtherTypeKind::IPv4);
    assert_eq!(info.ipv4, None);
}

#[test]
fn addresses_are_read_at_offsets_26_and_30() {
    let info = decode_ethernet(&with_ethertype(60, 0x08, 0x00)).unwrap();
    assert_eq!(info.dest_mac, [0, 1, 2, 3, 4, 5]);
    assert_eq!(info.src_mac, [6, 7, 8, 9, 10, 11]);
    assert_eq!(info.ipv4, Some(([26, 27, 28, 29], [30, 31, 32, 33])));
}

#[test]
fn only_ipv4_frames_have_addresses() {
    for (high, low, kind) in [
        (0x08u8, 0x06u8, EtherTypeKind::ARP),
        (0x86, 0xDD, EtherTypeKind::IPv6),
        (0x88, 0xCC, EtherTypeKind::Other(0x88CC)),
        (0x00, 0x08, EtherTypeKind::Other(0x0008)),
    ] {
        let info = decode_ethernet(&with_ethertype(64, high, low)).unwrap();
        assert_eq!(info.classification, kind);
        assert_eq!(info.ethertype, u16::from_be_bytes([high, low]));
        assert_eq!(info.ipv4, None);
    }
}

#[test]
fn known_ethertypes_are_classified() {
    assert_eq!(classify_ethertype(0x0800), EtherTypeKind::IPv4);
    assert_eq!(classify_ethertype(0x0806), EtherTypeKind::ARP);
    assert_eq!(classify_ethertype(0x86DD), EtherTypeKind::IPv6);
    assert_eq!(classify_ethertype(ETHERTYPE_IPV4), EtherTypeKind::IPv4);
    assert_eq!(classify_ethertype(ETHERTYPE_ARP), EtherTypeKind::ARP);
    assert_eq!(classify_ethertype(ETHERTYPE_IPV6), EtherTypeKind::IPv6);
}

#[test]
fn neighbours_of_known_ethertypes_are_other() {
    for value in [0x0000u16, 0x07FF, 0x0801, 0x0805, 0x0807, 0x86DC, 0x86DE, 0x0008, 0xDD86, 0xFFFF]
    {
        assert_eq!(classify_ethertype(value), EtherTypeKind::Other(value));
    }
}

#[test]
fn every_byte_pair_is_classified_exactly() {
    for high in 0..=255u8 {
        for low in 0..=255u8 {
            let value = be16(high, low);
            assert_eq!(value, u16::from_be_bytes([high, low]));
            let expected = match (high, low) {
                (0x08, 0x00) => EtherTypeKind::IPv4,
                (0x08, 0x06) => EtherTypeKind::ARP,
                (0x86, 0xDD) => EtherTypeKind::IPv6,
                _ => EtherTypeKind::Other(value),
            };
            assert_eq!(classify_ethertype(value), expected);
        }
    }
}

#[test]
fn ethertype_is_read_high_byte_first() {
    assert_eq!(be16(0x12, 0x34), 0x1234);
    assert_eq!(be16(0x00, 0xFF), 0x00FF);
    assert_eq!(be16(0xFF, 0x00), 0xFF00);
    assert_eq!(be16(0xFF, 0xFF), 0xFFFF);
    let info = decode_ethernet(&with_ethertype(14, 0x12, 0x34)).unwrap();
    assert_eq!(info.ethertype, 0x1234);
    assert_eq!(info.classification, EtherTypeKind::Other(0x1234));
}

#[test]
fn frame_keeps_bytes_length_and_time() {
    let bytes = with_ethertype(40, 0x08, 0x00);
    let frame = Frame::captured(bytes.clone(), 1514, Some((1_700_000_000, 250_000))).unwrap();
    assert_eq!(frame.as_bytes(), &bytes[..]);
    assert_eq!(frame.captured_length(), 40);
    assert_eq!(frame.total_length(), 1514);
    assert_eq!(frame.timestamp(), Some((1_700_000_000, 250_000)));
    let copy = frame.clone();
    assert_eq!(copy, frame);
}

#[test]
fn decoded_frame_records_lengths_and_time() {
    let bytes = with_ethertype(40, 0x08, 0x00);
    let frame = Frame::captured(bytes.clone(), 1514, Some((12, 34))).unwrap();
    let decoded = decode(&frame);
    assert_eq!(decoded.total_length, 1514);
    assert_eq!(decoded.captured_length, 40);
    assert_eq!(decoded.timestamp, Some((12, 34)));
    assert_eq!(decoded.ethernet, decode_ethernet(&bytes));
    assert_eq!(decoded.ethernet.unwrap().ipv4, Some(([26, 27, 28, 29], [30, 31, 32, 33])));
}

#[test]
fn total_length_below_captured_length_is_kept() {
    let frame = Frame::captured(numbered(20), 5, None).unwrap();
    let decoded = decode(&frame);
    assert_eq!(decoded.total_length, 5);
    assert_eq!(decoded.captured_length, 20);
    assert!(decoded.ethernet.is_some());
}

#[test]
fn whole_frame_has_its_own_length_and_no_time() {
    let frame = Frame::new(numbered(100)).unwrap();
    assert_eq!(frame.total_length(), 100);
    assert_eq!(frame.captured_length(), 100);
    assert_eq!(frame.timestamp(), None);
}

#[test]
fn longest_frame_is_accepted_and_longer_refused() {
    let frame = Frame::new(with_ethertype(MAX_FRAME_LEN, 0x08, 0x00)).unwrap();
    assert_eq!(frame.captured_length(), 65536);
    let decoded = decode(&frame);
    assert_eq!(decoded.captured_length, 65536);
    assert!(decoded.ethernet.unwrap().ipv4.is_some());
    assert_eq!(Frame::new(vec![0u8; MAX_FRAME_LEN + 1]), None);
    assert_eq!(Frame::captured(vec![0u8; MAX_FRAME_LEN + 1], 10, None), None);
}

#[test]
fn selected_lengths_decode_through_frames() {
    for length in [0usize, 1, 13, 14, 15, 33, 34, 35, 60, 1500, 1514, 9000, 65535, 65536] {
        let mut bytes = numbered(length);
        if length >= 14 {
            bytes[12] = 0x08;
            bytes[13] = 0x00;
        }
        let decoded = decode(&Frame::new(bytes).unwrap());
        assert_eq!(decoded.captured_length, length);
        assert_eq!(decoded.total_length, length);
        assert_eq!(decoded.ethernet.is_some(), length >= 14);
        if let Some(info) = decoded.ethernet {
            assert_eq!(info.ipv4.is_some(), length >= 34);
        }
    }
}

#[test]
fn addresses_are_read_at_fixed_offsets_whatever_the_header_says() {
    let mut bytes = with_ethertype(64, 0x08, 0x00);
    bytes[14] = 0x46;
    let info = decode_ethernet(&bytes).unwrap();
    assert_eq!(info.ipv4, Some(([26, 27, 28, 29], [30, 31, 32, 33])));
    bytes[14] = 0x00;
    bytes[23] = 0xFF;
    let info = decode_ethernet(&bytes).unwrap();
    assert_eq!(info.ipv4, Some(([26, 27, 28, 29], [30, 31, 32, 33])));
}
