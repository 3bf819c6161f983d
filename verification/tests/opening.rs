use frame_capture::decoder::be16;
use frame_capture::frame::MAX_FRAME_LEN;
use frame_capture::raw_socket::{
    all_interfaces, network_order, on_bind, on_receive, on_socket, socket_request, BindOutcome,
    BindRequest, LinkLayerAddress, SocketRequest, AF_PACKET, ALL_INTERFACES, ETH_P_ALL, SOCK_RAW,
};
use frame_capture::source::{
    open_error, resolve_interface, CaptureError, InterfaceSelector, OpenTarget, ReceiveOutcome,
    EACCES, EPERM,
};

#[test]
fn socket_is_asked_for_all_protocols_of_the_packet_family() {
    assert_eq!(
        socket_request(),
        SocketRequest { domain: 17, socket_type: 3, protocol: [0x00, 0x03] }
    );
    assert_eq!((AF_PACKET, SOCK_RAW, ETH_P_ALL, ALL_INTERFACES), (17, 3, 3, 0));
}

#[test]
fn socket_is_bound_to_all_interfaces() {
    assert_eq!(
        all_interfaces(),
        LinkLayerAddress {
            family: 17,
            protocol: [0x00, 0x03],
            interface_index: 0,
            hardware_type: 0,
            packet_type: 0,
            address_length: 0,
            address: [0; 8],
        }
    );
}

#[test]
fn network_order_is_high_byte_first() {
    assert_eq!(network_order(0x0003), [0x00, 0x03]);
    assert_eq!(network_order(0x0800), [0x08, 0x00]);
    assert_eq!(network_order(0x1234), [0x12, 0x34]);
    assert_eq!(network_order(0xFFFF), [0xFF, 0xFF]);
    assert_eq!(network_order(0), [0, 0]);
}

#[test]
fn network_order_is_what_the_decoder_reads() {
    for value in 0..=u16::MAX {
        let bytes = network_order(value);
        assert_eq!(bytes, value.to_be_bytes());
        assert_eq!(be16(bytes[0], bytes[1]), value);
    }
}

#[test]
fn failed_socket_call_fails_the_opening() {
    assert_eq!(on_socket(-1, 1), Err(CaptureError::PermissionDenied(1)));
    assert_eq!(on_socket(-1, 13), Err(CaptureError::PermissionDenied(13)));
    assert_eq!(on_socket(-1, 24), Err(CaptureError::OsError(24)));
    assert_eq!(on_socket(i32::MIN, 97), Err(CaptureError::OsError(97)));
}

#[test]
fn new_socket_is_to_be_bound() {
    assert_eq!(on_socket(3, 0), Ok(BindRequest { fd: 3, address: all_interfaces() }));
    assert_eq!(on_socket(0, 1), Ok(BindRequest { fd: 0, address: all_interfaces() }));
    assert_eq!(on_socket(i32::MAX, 13).unwrap().fd, i32::MAX);
}

#[test]
fn failed_bind_abandons_the_socket() {
    assert_eq!(
        on_bind(7, -1, 1),
        BindOutcome::Abandoned { fd: 7, error: CaptureError::PermissionDenied(1) }
    );
    assert_eq!(
        on_bind(7, -1, 19),
        BindOutcome::Abandoned { fd: 7, error: CaptureError::OsError(19) }
    );
}

#[test]
fn bound_socket_is_open() {
    assert_eq!(on_bind(7, 0, 0), BindOutcome::Opened { fd: 7 });
    assert_eq!(on_bind(0, 0, 13), BindOutcome::Opened { fd: 0 });
    assert_eq!(on_bind(9, 5, 1), BindOutcome::Opened { fd: 9 });
}

#[test]
fn lack_of_privilege_is_told_from_other_failures() {
    assert_eq!((EPERM, EACCES), (1, 13));
    assert_eq!(open_error(1), CaptureError::PermissionDenied(1));
    assert_eq!(open_error(13), CaptureError::PermissionDenied(13));
    for code in [0, 2, 12, 14, 19, 22, 97, -1, i32::MAX, i32::MIN] {
        assert_eq!(open_error(code), CaptureError::OsError(code));
    }
}

#[test]
fn all_interfaces_need_no_device() {
    assert_eq!(resolve_interface(InterfaceSelector::All, None), Ok(OpenTarget::AllInterfaces));
    assert_eq!(
        resolve_interface(InterfaceSelector::All, Some(String::from("eth0"))),
        Ok(OpenTarget::AllInterfaces)
    );
}

#[test]
fn default_interface_is_the_default_device() {
    assert_eq!(
        resolve_interface(InterfaceSelector::Default, Some(String::from("eth0"))),
        Ok(OpenTarget::Device(String::from("eth0")))
    );
}

#[test]
fn missing_default_device_fails_the_opening() {
    assert_eq!(
        resolve_interface(InterfaceSelector::Default, None),
        Err(CaptureError::DeviceUnavailable)
    );
}

#[test]
fn failed_receive_is_an_error_with_its_code() {
    let buffer = [0u8; 64];
    assert_eq!(on_receive(&buffer, -1, 100), ReceiveOutcome::Error(100));
    assert_eq!(on_receive(&buffer, -1, 4), ReceiveOutcome::Error(4));
    assert_eq!(on_receive(&buffer, -1, 11), ReceiveOutcome::Error(11));
    assert_eq!(on_receive(&buffer, isize::MIN, 0), ReceiveOutcome::Error(0));
}

#[test]
fn received_frame_is_the_start_of_the_buffer() {
    let buffer: Vec<u8> = (0..200u8).collect();
    match on_receive(&buffer, 60, 0) {
        ReceiveOutcome::Frame(frame) => {
            assert_eq!(frame.as_bytes(), &buffer[..60]);
            assert_eq!(frame.captured_length(), 60);
            assert_eq!(frame.total_length(), 60);
            assert_eq!(frame.timestamp(), None);
        }
        other => panic!("a frame was received, not {:?}", other),
    }
}

#[test]
fn receive_of_nothing_is_an_empty_frame() {
    match on_receive(&[1, 2, 3], 0, 5) {
        ReceiveOutcome::Frame(frame) => {
            assert_eq!(frame.captured_length(), 0);
            assert_eq!(frame.total_length(), 0);
        }
        other => panic!("a frame was received, not {:?}", other),
    }
}

#[test]
fn receive_that_fills_the_buffer_is_the_whole_buffer() {
    let buffer = vec![0x5A; MAX_FRAME_LEN];
    match on_receive(&buffer, MAX_FRAME_LEN as isize, 0) {
        ReceiveOutcome::Frame(frame) => {
            assert_eq!(frame.captured_length(), 65536);
            assert_eq!(frame.as_bytes(), &buffer[..]);
        }
        other => panic!("a frame was received, not {:?}", other),
    }
}

#[test]
fn frame_longer_than_the_buffer_is_cut_at_the_buffer() {
    let buffer: Vec<u8> = (0..100u8).collect();
    match on_receive(&buffer, 1514, 0) {
        ReceiveOutcome::Frame(frame) => {
            assert_eq!(frame.as_bytes(), &buffer[..]);
            assert_eq!(frame.captured_length(), 100);
            assert_eq!(frame.total_length(), 1514);
        }
        other => panic!("a frame was received, not {:?}", other),
    }
}

#[test]
fn frame_is_cut_at_the_longest_frame() {
    let buffer = vec![1u8; MAX_FRAME_LEN + 10];
    match on_receive(&buffer, (MAX_FRAME_LEN + 5) as isize, 0) {
        ReceiveOutcome::Frame(frame) => {
            assert_eq!(frame.captured_length(), MAX_FRAME_LEN);
            assert_eq!(frame.total_length(), MAX_FRAME_LEN + 5);
        }
        other => panic!("a frame was received, not {:?}", other),
    }
}
