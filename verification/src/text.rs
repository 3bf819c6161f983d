//! The text forms of decoded fields, for a sink that renders frames.
//!
//! Hardware addresses are written as six pairs of upper-case hexadecimal
//! digits with colons between them, IPv4 addresses as four decimal numbers
//! with dots between them, and an EtherType by the name of its protocol or,
//! where it has none, as `0x` and four hexadecimal digits.

use crate::decoder::EtherTypeKind;
use vstd::prelude::*;
use vstd::string::StringExecFns;

verus! {

/// Number of bytes at the start of a frame that a preview shows.
pub const PREVIEW_LEN: usize = 16;

/// The digit of a value below 16: a decimal digit below 10, an upper-case
/// letter from there on.
pub open spec fn spec_digit(value: int) -> char {
    seq!['0', '1', '2', '3', '4', '5', '6', '7', '8', '9', 'A', 'B', 'C', 'D', 'E', 'F'][value]
}

/// The two hexadecimal digits of a byte.
pub open spec fn spec_hex_byte(byte: u8) -> Seq<char> {
    seq![spec_digit(byte as int / 16), spec_digit(byte as int % 16)]
}

/// The four hexadecimal digits of a 16-bit value: those of its high byte,
/// then those of its low byte.
pub open spec fn spec_hex_u16(value: u16) -> Seq<char> {
    spec_hex_byte((value / 256) as u8) + spec_hex_byte((value % 256) as u8)
}

/// The decimal digits of a number, without leading zeros.
pub open spec fn spec_decimal(value: nat) -> Seq<char>
    decreases value,
{
    if value < 10 {
        seq![spec_digit(value as int)]
    } else {
        spec_decimal(value / 10).push(spec_digit(value as int % 10))
    }
}

/// The text of a hardware address: the hexadecimal digits of its bytes, with
/// a colon between one byte and the next.
pub open spec fn spec_mac_text(mac: Seq<u8>) -> Seq<char>
    decreases mac.len(),
{
    if mac.len() == 0 {
        Seq::empty()
    } else if mac.len() == 1 {
        spec_hex_byte(mac[0])
    } else {
        spec_mac_text(mac.drop_last()) + seq![':'] + spec_hex_byte(mac.last())
    }
}

/// The text of an IPv4 address: the decimal numbers of its bytes, with a dot
/// between one byte and the next.
pub open spec fn spec_ipv4_text(address: Seq<u8>) -> Seq<char>
    decreases address.len(),
{
    if address.len() == 0 {
        Seq::empty()
    } else if address.len() == 1 {
        spec_decimal(address[0] as nat)
    } else {
        spec_ipv4_text(address.drop_last()) + seq!['.'] + spec_decimal(address.last() as nat)
    }
}

/// The text of an EtherType's kind.
pub open spec fn spec_kind_text(kind: EtherTypeKind) -> Seq<char> {
    match kind {
        EtherTypeKind::IPv4 => seq!['I', 'P', 'v', '4'],
        EtherTypeKind::ARP => seq!['A', 'R', 'P'],
        EtherTypeKind::IPv6 => seq!['I', 'P', 'v', '6'],
        EtherTypeKind::Other(value) => seq!['0', 'x'] + spec_hex_u16(value),
    }
}

/// The hexadecimal digits of each of the given bytes, with a space after
/// each byte.
pub open spec fn spec_hex_run(bytes: Seq<u8>) -> Seq<char>
    decreases bytes.len(),
{
    if bytes.len() == 0 {
        Seq::empty()
    } else {
        spec_hex_run(bytes.drop_last()) + spec_hex_byte(bytes.last()) + seq![' ']
    }
}

/// Number of bytes that the preview of a frame of `length` bytes shows.
pub open spec fn spec_preview_len(length: nat) -> nat {
    if length < PREVIEW_LEN {
        length
    } else {
        PREVIEW_LEN as nat
    }
}

/// The preview of a frame: its first [`PREVIEW_LEN`] bytes, or all of a
/// shorter frame, in hexadecimal digits with a space after each byte.
pub open spec fn spec_hex_preview(bytes: Seq<u8>) -> Seq<char> {
    spec_hex_run(bytes.take(spec_preview_len(bytes.len()) as int))
}

/// The digit of a value below 16, as text.
fn digit(value: u8) -> (text: &'static str)
    requires
        value < 16,
    ensures
        text@ == seq![spec_digit(value as int)],
{
    proof {
        reveal_strlit("0");
        reveal_strlit("1");
        reveal_strlit("2");
        reveal_strlit("3");
        reveal_strlit("4");
        reveal_strlit("5");
        reveal_strlit("6");
        reveal_strlit("7");
        reveal_strlit("8");
        reveal_strlit("9");
        reveal_strlit("A");
        reveal_strlit("B");
        reveal_strlit("C");
        reveal_strlit("D");
        reveal_strlit("E");
        reveal_strlit("F");
    }
    let text = match value {
        0 => "0",
        1 => "1",
        2 => "2",
        3 => "3",
        4 => "4",
        5 => "5",
        6 => "6",
        7 => "7",
        8 => "8",
        9 => "9",
        10 => "A",
        11 => "B",
        12 => "C",
        13 => "D",
        14 => "E",
        _ => "F",
    };
    text
}

/// Appends the two hexadecimal digits of a byte.
fn push_hex_byte(text: &mut String, byte: u8)
    ensures
        final(text)@ == old(text)@ + spec_hex_byte(byte),
{
    text.append(digit(byte / 16));
    text.append(digit(byte % 16));
}

/// Appends the decimal digits of a byte.
fn push_decimal(text: &mut String, value: u8)
    ensures
        final(text)@ == old(text)@ + spec_decimal(value as nat),
{
    reveal_with_fuel(spec_decimal, 3);
    if value >= 100 {
        text.append(digit(value / 100));
    }
    if value >= 10 {
        text.append(digit(value / 10 % 10));
    }
    text.append(digit(value % 10));
}

/// The two hexadecimal digits of a byte.
pub fn hex_byte(byte: u8) -> (text: String)
    ensures
        text@ == spec_hex_byte(byte),
{
    let mut text = String::new();
    push_hex_byte(&mut text, byte);
    text
}

/// The text of a hardware address, such as `00:1A:2B:3C:4D:5E`.
pub fn mac_text(mac: &[u8; 6]) -> (text: String)
    ensures
        text@ == spec_mac_text(mac@),
        text@.len() == 17,
{
    let mut text = String::new();
    let mut index: usize = 0;
    while index < 6
        invariant
            index <= 6,
            text@ == spec_mac_text(mac@.take(index as int)),
            text@.len() == if index == 0 {
                0int
            } else {
                3 * index - 1
            },
        decreases 6 - index,
    {
        if index > 0 {
            text.append(":");
        }
        push_hex_byte(&mut text, mac[index]);
        proof {
            reveal_strlit(":");
            assert(mac@.take(index + 1).drop_last() =~= mac@.take(index as int));
        }
        index += 1;
    }
    assert(mac@.take(6) =~= mac@);
    text
}

/// The text of an IPv4 address, such as `192.168.1.10`.
pub fn ipv4_text(address: &[u8; 4]) -> (text: String)
    ensures
        text@ == spec_ipv4_text(address@),
{
    let mut text = String::new();
    let mut index: usize = 0;
    while index < 4
        invariant
            index <= 4,
            text@ == spec_ipv4_text(address@.take(index as int)),
        decreases 4 - index,
    {
        if index > 0 {
            text.append(".");
        }
        push_decimal(&mut text, address[index]);
        proof {
            reveal_strlit(".");
            assert(address@.take(index + 1).drop_last() =~= address@.take(index as int));
        }
        index += 1;
    }
    assert(address@.take(4) =~= address@);
    text
}

/// The text of an EtherType's kind: `IPv4`, `ARP`, `IPv6`, or the value of
/// any other EtherType as `0x` and four hexadecimal digits.
pub fn kind_text(kind: EtherTypeKind) -> (text: String)
    ensures
        text@ == spec_kind_text(kind),
{
    proof {
        reveal_strlit("IPv4");
        reveal_strlit("ARP");
        reveal_strlit("IPv6");
        reveal_strlit("0x");
    }
    match kind {
        EtherTypeKind::IPv4 => String::from_str("IPv4"),
        EtherTypeKind::ARP => String::from_str("ARP"),
        EtherTypeKind::IPv6 => String::from_str("IPv6"),
        EtherTypeKind::Other(value) => {
            let mut text = String::from_str("0x");
            push_hex_byte(&mut text, (value / 256) as u8);
            push_hex_byte(&mut text, (value % 256) as u8);
            text
        },
    }
}

/// The number of bytes that the preview of a frame of `length` bytes shows.
pub fn preview_len(length: usize) -> (shown: usize)
    ensures
        shown == spec_preview_len(length as nat),
        shown <= length,
        shown <= PREVIEW_LEN,
{
    if length < PREVIEW_LEN {
        length
    } else {
        PREVIEW_LEN
    }
}

/// The preview of a frame: its first [`PREVIEW_LEN`] bytes, or all of a
/// shorter frame, in hexadecimal digits with a space after each byte.
pub fn hex_preview(bytes: &[u8]) -> (text: String)
    ensures
        text@ == spec_hex_preview(bytes@),
        text@.len() == 3 * spec_preview_len(bytes@.len()),
{
    let shown = preview_len(bytes.len());
    let mut text = String::new();
    let mut index: usize = 0;
    while index < shown
        invariant
            index <= shown <= bytes@.len(),
            text@ == spec_hex_run(bytes@.take(index as int)),
            text@.len() == 3 * index,
        decreases shown - index,
    {
        push_hex_byte(&mut text, bytes[index]);
        text.append(" ");
        proof {
            reveal_strlit(" ");
            assert(bytes@.take(index + 1).drop_last() =~= bytes@.take(index as int));
        }
        index += 1;
    }
    text
}

} // verus!
