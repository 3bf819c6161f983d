//! Decoding of the Ethernet header and of IPv4 addressing.
//!
//! Decoding never fails and never reads past the captured bytes: a frame that
//! is too short for a field is decoded without that field.

use crate::frame::{CaptureTime, Frame};
use vstd::prelude::*;

verus! {

/// Length of an Ethernet header: two hardware addresses and the EtherType.
pub const ETHERNET_HEADER_LEN: usize = 14;

/// Offset of the source address of an IPv4 packet that follows the Ethernet
/// header, its own header being the minimal one of 20 bytes.
pub const IPV4_SOURCE_OFFSET: usize = 26;

/// Offset of the destination address of such a packet.
pub const IPV4_DESTINATION_OFFSET: usize = 30;

/// Number of bytes that a frame must hold for both IPv4 addresses to be read.
pub const IPV4_ADDRESSES_END: usize = 34;

/// EtherType of IPv4.
pub const ETHERTYPE_IPV4: u16 = 0x0800;

/// EtherType of ARP.
pub const ETHERTYPE_ARP: u16 = 0x0806;

/// EtherType of IPv6.
pub const ETHERTYPE_IPV6: u16 = 0x86DD;

/// The protocol that an EtherType names.
#[derive(Clone, Copy, Debug, PartialEq, Eq)]
pub enum EtherTypeKind {
    IPv4,
    ARP,
    IPv6,
    /// Any other EtherType, with its value.
    Other(u16),
}

/// What the Ethernet header of a frame says, and the IPv4 addresses behind it.
#[derive(Clone, Copy, Debug, PartialEq, Eq)]
pub struct EthernetInfo {
    /// Destination hardware address.
    pub dest_mac: [u8; 6],
    /// Source hardware address.
    pub src_mac: [u8; 6],
    /// The EtherType as it stands in the header.
    pub ethertype: u16,
    /// The protocol that the EtherType names.
    pub classification: EtherTypeKind,
    /// Source and destination address, for an IPv4 frame that is long enough
    /// to hold them.
    pub ipv4: Option<([u8; 4], [u8; 4])>,
}

/// The decoded form of one frame.
#[derive(Clone, Copy, Debug, PartialEq, Eq)]
pub struct DecodedFrame {
    /// The length that the frame had on the wire.
    pub total_length: usize,
    /// The number of bytes that were captured.
    pub captured_length: usize,
    /// The time of capture, where the source reported one.
    pub timestamp: Option<CaptureTime>,
    /// The Ethernet header, for a frame that is long enough to hold one.
    pub ethernet: Option<EthernetInfo>,
}

/// The 16-bit value that two bytes spell in network order, `high` first.
pub open spec fn spec_be16(high: u8, low: u8) -> u16 {
    (high * 256 + low) as u16
}

/// The kind of an EtherType: one of the three known values, matched exactly,
/// or `Other` with the value itself.
pub open spec fn spec_classify_ethertype(ethertype: u16) -> EtherTypeKind {
    if ethertype == ETHERTYPE_IPV4 {
        EtherTypeKind::IPv4
    } else if ethertype == ETHERTYPE_ARP {
        EtherTypeKind::ARP
    } else if ethertype == ETHERTYPE_IPV6 {
        EtherTypeKind::IPv6
    } else {
        EtherTypeKind::Other(ethertype)
    }
}

/// The six bytes of `bytes` that start at `at`.
pub open spec fn spec_mac_at(bytes: Seq<u8>, at: int) -> [u8; 6] {
    [bytes[at], bytes[at + 1], bytes[at + 2], bytes[at + 3], bytes[at + 4], bytes[at + 5]]
}

/// The four bytes of `bytes` that start at `at`.
pub open spec fn spec_ipv4_at(bytes: Seq<u8>, at: int) -> [u8; 4] {
    [bytes[at], bytes[at + 1], bytes[at + 2], bytes[at + 3]]
}

/// The IPv4 addresses of a frame of the given kind: present exactly for an
/// IPv4 frame of at least [`IPV4_ADDRESSES_END`] bytes.
pub open spec fn spec_ipv4_addresses(bytes: Seq<u8>, kind: EtherTypeKind) -> Option<
    ([u8; 4], [u8; 4]),
> {
    if kind == EtherTypeKind::IPv4 && bytes.len() >= IPV4_ADDRESSES_END {
        Some(
            (
                spec_ipv4_at(bytes, IPV4_SOURCE_OFFSET as int),
                spec_ipv4_at(bytes, IPV4_DESTINATION_OFFSET as int),
            ),
        )
    } else {
        None
    }
}

/// The Ethernet header of a frame: present exactly for a frame of at least
/// [`ETHERNET_HEADER_LEN`] bytes.
pub open spec fn spec_decode_ethernet(bytes: Seq<u8>) -> Option<EthernetInfo> {
    if bytes.len() >= ETHERNET_HEADER_LEN {
        let ethertype = spec_be16(bytes[12], bytes[13]);
        let classification = spec_classify_ethertype(ethertype);
        Some(
            EthernetInfo {
                dest_mac: spec_mac_at(bytes, 0),
                src_mac: spec_mac_at(bytes, 6),
                ethertype,
                classification,
                ipv4: spec_ipv4_addresses(bytes, classification),
            },
        )
    } else {
        None
    }
}

/// The decoded form of a frame with the given bytes, length on the wire and
/// time of capture.
pub open spec fn spec_decode(
    bytes: Seq<u8>,
    total_length: usize,
    timestamp: Option<CaptureTime>,
) -> DecodedFrame {
    DecodedFrame {
        total_length,
        captured_length: bytes.len() as usize,
        timestamp,
        ethernet: spec_decode_ethernet(bytes),
    }
}

/// The 16-bit value that two bytes spell in network order, `high` first.
pub fn be16(high: u8, low: u8) -> (value: u16)
    ensures
        value == spec_be16(high, low),
        value == high * 256 + low,
{
    (high as u16) * 256 + (low as u16)
}

/// Classifies an EtherType.
pub fn classify_ethertype(ethertype: u16) -> (kind: EtherTypeKind)
    ensures
        kind == spec_classify_ethertype(ethertype),
{
    if ethertype == ETHERTYPE_IPV4 {
        EtherTypeKind::IPv4
    } else if ethertype == ETHERTYPE_ARP {
        EtherTypeKind::ARP
    } else if ethertype == ETHERTYPE_IPV6 {
        EtherTypeKind::IPv6
    } else {
        EtherTypeKind::Other(ethertype)
    }
}

/// Reads a hardware address.
fn mac_at(bytes: &[u8], at: usize) -> (mac: [u8; 6])
    requires
        at + 6 <= bytes@.len(),
    ensures
        mac == spec_mac_at(bytes@, at as int),
{
    [bytes[at], bytes[at + 1], bytes[at + 2], bytes[at + 3], bytes[at + 4], bytes[at + 5]]
}

/// Reads an IPv4 address.
fn ipv4_at(bytes: &[u8], at: usize) -> (address: [u8; 4])
    requires
        at + 4 <= bytes@.len(),
    ensures
        address == spec_ipv4_at(bytes@, at as int),
{
    [bytes[at], bytes[at + 1], bytes[at + 2], bytes[at + 3]]
}

/// Decodes the Ethernet header of a frame, and the IPv4 addresses where the
/// frame is an IPv4 frame that is long enough to hold them. Any bytes are
/// accepted.
pub fn decode_ethernet(bytes: &[u8]) -> (ethernet: Option<EthernetInfo>)
    ensures
        ethernet == spec_decode_ethernet(bytes@),
        ethernet is Some <==> bytes@.len() >= ETHERNET_HEADER_LEN,
        ethernet matches Some(info) ==> (info.ipv4 is Some <==> info.classification
            == EtherTypeKind::IPv4 && bytes@.len() >= IPV4_ADDRESSES_END),
{
    if bytes.len() < ETHERNET_HEADER_LEN {
        return None;
    }
    let ethertype = be16(bytes[12], bytes[13]);
    let classification = classify_ethertype(ethertype);
    let ipv4 = match classification {
        EtherTypeKind::IPv4 => {
            if bytes.len() >= IPV4_ADDRESSES_END {
                Some(
                    (
                        ipv4_at(bytes, IPV4_SOURCE_OFFSET),
                        ipv4_at(bytes, IPV4_DESTINATION_OFFSET),
                    ),
                )
            } else {
                None
            }
        },
        _ => None,
    };
    Some(
        EthernetInfo {
            dest_mac: mac_at(bytes, 0),
            src_mac: mac_at(bytes, 6),
            ethertype,
            classification,
            ipv4,
        },
    )
}

/// Decodes a frame. Every frame is decoded: one that is cut short, or that
/// holds anything but an Ethernet frame, comes out with fewer fields.
pub fn decode(frame: &Frame) -> (decoded: DecodedFrame)
    ensures
        decoded == spec_decode(frame@, frame.spec_total_length(), frame.spec_timestamp()),
        decoded.total_length == frame.spec_total_length(),
        decoded.captured_length == frame@.len(),
        decoded.timestamp == frame.spec_timestamp(),
        decoded.ethernet is Some <==> frame@.len() >= ETHERNET_HEADER_LEN,
        decoded.ethernet matches Some(info) ==> (info.ipv4 is Some <==> info.classification
            == EtherTypeKind::IPv4 && frame@.len() >= IPV4_ADDRESSES_END),
{
    DecodedFrame {
        total_length: frame.total_length(),
        captured_length: frame.captured_length(),
        timestamp: frame.timestamp(),
        ethernet: decode_ethernet(frame.as_bytes()),
    }
}

/// Classification goes by the two EtherType bytes alone and is exact: the
/// pair `08 00` is IPv4, `08 06` is ARP, `86 DD` is IPv6, and every other
/// pair is `Other` with the 16-bit value that the pair spells.
pub proof fn lemma_classification_exact(high: u8, low: u8)
    ensures
        spec_classify_ethertype(spec_be16(high, low)) == EtherTypeKind::IPv4 <==> high == 0x08
            && low == 0x00,
        spec_classify_ethertype(spec_be16(high, low)) == EtherTypeKind::ARP <==> high == 0x08
            && low == 0x06,
        spec_classify_ethertype(spec_be16(high, low)) == EtherTypeKind::IPv6 <==> high == 0x86
            && low == 0xDD,
        !(high == 0x08 && low == 0x00) && !(high == 0x08 && low == 0x06) && !(high == 0x86 && low
            == 0xDD) ==> spec_classify_ethertype(spec_be16(high, low)) == EtherTypeKind::Other(
            spec_be16(high, low),
        ),
        spec_be16(high, low) == high * 256 + low,
        spec_be16(high, low) / 256 == high,
        spec_be16(high, low) % 256 == low,
{
}

/// What a frame of given bytes decodes to depends on its length as follows:
/// the Ethernet header is present exactly from 14 bytes on, and the IPv4
/// addresses exactly for an IPv4 frame of 34 bytes or more. A frame with an
/// Ethernet header has the EtherType that bytes 12 and 13 spell, classified
/// exactly.
pub proof fn lemma_decoded_fields(bytes: Seq<u8>)
    ensures
        spec_decode_ethernet(bytes) is Some <==> bytes.len() >= 14,
        spec_decode_ethernet(bytes) matches Some(info) ==> {
            &&& info.ethertype == bytes[12] * 256 + bytes[13]
            &&& info.classification == spec_classify_ethertype(info.ethertype)
            &&& info.ipv4 is Some <==> info.classification == EtherTypeKind::IPv4 && bytes.len()
                >= 34
            &&& forall|i: int| 0 <= i < 6 ==> info.dest_mac[i] == bytes[i]
            &&& forall|i: int| 0 <= i < 6 ==> info.src_mac[i] == bytes[6 + i]
            &&& info.ipv4 matches Some((source, destination)) ==> {
                &&& forall|i: int| 0 <= i < 4 ==> source[i] == bytes[26 + i]
                &&& forall|i: int| 0 <= i < 4 ==> destination[i] == bytes[30 + i]
            }
        },
{
}

} // verus!
