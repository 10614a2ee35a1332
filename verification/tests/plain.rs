use igloo_esphome::connection::error::ConnectionError;
use igloo_esphome::connection::plain::PlainConnection;
use igloo_esphome::model::MessageType;
use igloo_esphome::varu32_to_bytes;

fn connected_transport() -> PlainConnection {
    let mut c = PlainConnection::new("10.0.0.2:6053".to_string());
    c.connect();
    c
}

#[test]
fn plain_frame_round_trip() {
    let c = connected_transport();
    let payload: Vec<u8> = vec![1, 2, 3, 250, 0, 255];
    let packet = c.send_msg(MessageType::SwitchCommandRequest, &payload).unwrap();
    let (t, p, consumed) = c.recv_msg(&packet).unwrap();
    assert_eq!(t, MessageType::SwitchCommandRequest);
    assert_eq!(p, payload);
    assert_eq!(consumed, packet.len());
}

#[test]
fn plain_frame_round_trip_empty_payload() {
    let c = connected_transport();
    let packet = c.send_msg(MessageType::PingRequest, &Vec::new()).unwrap();
    let (t, p, consumed) = c.recv_msg(&packet).unwrap();
    assert_eq!(t, MessageType::PingRequest);
    assert!(p.is_empty());
    assert_eq!(consumed, packet.len());
}

#[test]
fn plain_frame_exact_bytes() {
    let c = connected_transport();
    let payload: Vec<u8> = vec![9, 8];
    let packet = c.send_msg(MessageType::HelloRequest, &payload).unwrap();
    // preamble 0, varint(type id 1), varint(len 2), payload
    assert_eq!(packet, vec![0, 1, 2, 9, 8]);
}

#[test]
fn plain_round_trip_large_payload_length() {
    let c = connected_transport();
    let payload: Vec<u8> = vec![0xA5; 3000];
    let packet = c.send_msg(MessageType::CameraImageResponse, &payload).unwrap();
    let (t, p, consumed) = c.recv_msg(&packet).unwrap();
    assert_eq!(t, MessageType::CameraImageResponse);
    assert_eq!(p, payload);
    assert_eq!(consumed, packet.len());
}

#[test]
fn plain_not_connected_is_an_error() {
    let c = PlainConnection::new("10.0.0.2:6053".to_string());
    assert_eq!(
        c.send_msg(MessageType::PingRequest, &Vec::new()),
        Err(ConnectionError::NotConnected)
    );
    assert_eq!(c.recv_msg(&vec![0, 1, 0]), Err(ConnectionError::NotConnected));
}

#[test]
fn plain_wrong_preamble_is_reported() {
    let c = connected_transport();
    let buf: Vec<u8> = vec![5, 1, 0];
    assert_eq!(c.recv_msg(&buf), Err(ConnectionError::FrameHadWrongPreamble(5)));
}

#[test]
fn plain_unknown_message_type_is_a_hard_error() {
    let c = connected_transport();
    let mut buf: Vec<u8> = vec![0];
    buf.extend(varu32_to_bytes(9999));
    buf.extend(varu32_to_bytes(0));
    assert_eq!(c.recv_msg(&buf), Err(ConnectionError::UnknownMessageType(9999)));
}

#[test]
fn plain_incomplete_frame_asks_for_more() {
    let c = connected_transport();
    // A full header promising 4 payload bytes, with only 1 present.
    let buf: Vec<u8> = vec![0, 1, 4, 42];
    assert_eq!(c.recv_msg(&buf), Err(ConnectionError::Incomplete));
    assert_eq!(c.recv_msg(&vec![]), Err(ConnectionError::Incomplete));
}

#[test]
fn plain_disconnect_clears_connection() {
    let mut c = connected_transport();
    assert!(c.is_connected());
    c.disconnect();
    assert!(!c.is_connected());
    assert_eq!(c.get_name(), None);
}

#[test]
fn message_type_registry_round_trips() {
    let ids: Vec<u16> = (0u16..200).collect();
    for id in ids {
        if let Some(t) = MessageType::from_repr(id) {
            assert_eq!(t.id(), id);
        }
    }
    assert_eq!(MessageType::from_repr(1), Some(MessageType::HelloRequest));
    assert_eq!(MessageType::from_repr(19), Some(MessageType::ListEntitiesDoneResponse));
    assert_eq!(MessageType::from_repr(26), Some(MessageType::SwitchStateResponse));
    assert_eq!(MessageType::from_repr(9999), None);
    assert_eq!(MessageType::SwitchCommandRequest.id(), 33);
}
