//! The raw-socket source, decision by decision.
//!
//! A raw socket of the packet family, bound to all interfaces, delivers every
//! link-layer frame that the machine sees. Opening one takes two calls of the
//! operating system, and each can fail; a receive is one call. This module
//! says what to pass to each call and what each result means. The calls
//! themselves are the driver's.

use crate::decoder::spec_be16;
use crate::frame::{Frame, MAX_FRAME_LEN};
use crate::source::{open_error, spec_open_error, CaptureError, ReceiveOutcome};
use vstd::math::min;
use vstd::pervasive::unreached;
use vstd::prelude::*;
use vstd::slice::{slice_subrange, slice_to_vec};

verus! {

/// The packet family of link-layer sockets.
pub const AF_PACKET: i32 = 17;

/// The socket type that delivers frames with their link-layer header.
pub const SOCK_RAW: i32 = 3;

/// The protocol number that stands for every protocol.
pub const ETH_P_ALL: u16 = 0x0003;

/// The interface index that stands for every interface.
pub const ALL_INTERFACES: i32 = 0;

/// What to pass to the call that creates the socket.
#[derive(Clone, Copy, Debug, PartialEq, Eq)]
pub struct SocketRequest {
    pub domain: i32,
    pub socket_type: i32,
    /// The protocol number, in network byte order.
    pub protocol: [u8; 2],
}

/// The link-layer address that a socket is bound to.
#[derive(Clone, Copy, Debug, PartialEq, Eq)]
pub struct LinkLayerAddress {
    pub family: u16,
    /// The protocol number, in network byte order.
    pub protocol: [u8; 2],
    pub interface_index: i32,
    pub hardware_type: u16,
    pub packet_type: u8,
    pub address_length: u8,
    pub address: [u8; 8],
}

/// What to pass to the call that binds the socket.
#[derive(Clone, Copy, Debug, PartialEq, Eq)]
pub struct BindRequest {
    /// The socket that was created.
    pub fd: i32,
    pub address: LinkLayerAddress,
}

/// How the opening ended.
#[derive(Clone, Copy, Debug, PartialEq, Eq)]
pub enum BindOutcome {
    /// The socket `fd` is open and bound: frames can be received.
    Opened { fd: i32 },
    /// Binding failed: the socket `fd` is to be closed, and the opening has
    /// failed with `error`.
    Abandoned { fd: i32, error: CaptureError },
}

/// The two bytes of a 16-bit value in network byte order, high byte first.
pub open spec fn spec_network_order(value: u16) -> [u8; 2] {
    [(value / 256) as u8, (value % 256) as u8]
}

/// The address that binds a socket to every interface, for every protocol.
pub open spec fn spec_all_interfaces() -> LinkLayerAddress {
    LinkLayerAddress {
        family: AF_PACKET as u16,
        protocol: spec_network_order(ETH_P_ALL),
        interface_index: ALL_INTERFACES,
        hardware_type: 0,
        packet_type: 0,
        address_length: 0,
        address: [0u8, 0u8, 0u8, 0u8, 0u8, 0u8, 0u8, 0u8],
    }
}

/// Number of bytes of the buffer that a receive has filled, the call having
/// returned `returned`: never more than the buffer holds, nor than a frame
/// can hold.
pub open spec fn spec_captured_length(buffer_length: nat, returned: int) -> nat {
    if returned <= 0 {
        0
    } else {
        min(min(returned, buffer_length as int), MAX_FRAME_LEN as int) as nat
    }
}

/// The two bytes of a 16-bit value in network byte order, high byte first.
pub fn network_order(value: u16) -> (bytes: [u8; 2])
    ensures
        bytes == spec_network_order(value),
        bytes[0] == value / 256,
        bytes[1] == value % 256,
        spec_be16(bytes[0], bytes[1]) == value,
{
    [(value / 256) as u8, (value % 256) as u8]
}

/// What to pass to the call that creates the socket: the packet family, the
/// raw type and the protocol number for every protocol.
pub fn socket_request() -> (request: SocketRequest)
    ensures
        request.domain == AF_PACKET,
        request.socket_type == SOCK_RAW,
        request.protocol == spec_network_order(ETH_P_ALL),
        request.protocol[0] == 0x00 && request.protocol[1] == 0x03,
{
    SocketRequest { domain: AF_PACKET, socket_type: SOCK_RAW, protocol: network_order(ETH_P_ALL) }
}

/// The address that binds a socket to every interface, for every protocol.
pub fn all_interfaces() -> (address: LinkLayerAddress)
    ensures
        address == spec_all_interfaces(),
{
    LinkLayerAddress {
        family: AF_PACKET as u16,
        protocol: network_order(ETH_P_ALL),
        interface_index: ALL_INTERFACES,
        hardware_type: 0,
        packet_type: 0,
        address_length: 0,
        address: [0u8, 0u8, 0u8, 0u8, 0u8, 0u8, 0u8, 0u8],
    }
}

/// Takes what the call that creates the socket returned, and the error code
/// of the operating system after it. A negative result is a failure and the
/// opening has failed; any other is the new socket, which is to be bound to
/// all interfaces.
pub fn on_socket(returned: i32, os_error: i32) -> (step: Result<BindRequest, CaptureError>)
    ensures
        returned < 0 ==> step == Err::<BindRequest, CaptureError>(spec_open_error(os_error)),
        returned >= 0 ==> step == Ok::<BindRequest, CaptureError>(
            BindRequest { fd: returned, address: spec_all_interfaces() },
        ),
{
    if returned < 0 {
        Err(open_error(os_error))
    } else {
        Ok(BindRequest { fd: returned, address: all_interfaces() })
    }
}

/// Takes what the call that binds the socket `fd` returned, and the error
/// code of the operating system after it. A negative result is a failure:
/// the socket is abandoned, so that it is closed and not lost. Any other
/// result means that the socket is open.
pub fn on_bind(fd: i32, returned: i32, os_error: i32) -> (outcome: BindOutcome)
    ensures
        returned < 0 ==> outcome == (BindOutcome::Abandoned {
            fd,
            error: spec_open_error(os_error),
        }),
        returned >= 0 ==> outcome == (BindOutcome::Opened { fd }),
{
    if returned < 0 {
        BindOutcome::Abandoned { fd, error: open_error(os_error) }
    } else {
        BindOutcome::Opened { fd }
    }
}

/// Takes what a receive into `buffer` returned, and the error code of the
/// operating system after it.
///
/// A negative result is a failure, whatever interrupted the receive: a raw
/// socket never times out. Any other result is the length of the frame that
/// arrived. The frame holds the bytes at the start of the buffer, as many as
/// the result says, and no more than the buffer or a frame can hold; the
/// result is kept as the frame's length on the wire.
pub fn on_receive(buffer: &[u8], returned: isize, os_error: i32) -> (outcome: ReceiveOutcome)
    ensures
        returned < 0 ==> outcome == ReceiveOutcome::Error(os_error),
        returned >= 0 ==> {
            &&& outcome matches ReceiveOutcome::Frame(frame)
            &&& frame@ == buffer@.take(spec_captured_length(buffer@.len(), returned as int) as int)
            &&& frame.spec_total_length() == returned
            &&& frame.spec_timestamp() is None
        },
        0 <= returned <= buffer@.len() <= MAX_FRAME_LEN ==> {
            &&& outcome matches ReceiveOutcome::Frame(frame)
            &&& frame@ == buffer@.take(returned as int)
        },
{
    if returned < 0 {
        return ReceiveOutcome::Error(os_error);
    }
    let length = returned as usize;
    let mut captured = if length <= buffer.len() {
        length
    } else {
        buffer.len()
    };
    if captured > MAX_FRAME_LEN {
        captured = MAX_FRAME_LEN;
    }
    let bytes = slice_to_vec(slice_subrange(buffer, 0, captured));
    match Frame::captured(bytes, length, None) {
        Some(frame) => ReceiveOutcome::Frame(frame),
        None => unreached(),
    }
}

} // verus!
