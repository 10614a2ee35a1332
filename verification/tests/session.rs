use igloo_esphome::api::{leb_encode, ConnectResponse, DeviceInfoResponse, GetTimeResponse};
use igloo_esphome::config::Config;
use igloo_esphome::connection::base::Connection;
use igloo_esphome::connection::error::ConnectionError;
use igloo_esphome::connection::plain::PlainConnection;
use igloo_esphome::device::{
    ConnectProgress, ConnectionParams, Device, DeviceError, DiscoveredEntity, DiscoveryOutcome,
    EntityStateUpdate, RunOutcome, SessionPhase,
};
use igloo_esphome::hub::{Attribute, HubEvent};
use igloo_esphome::model::{EntityType, MessageType};
use igloo_esphome::registry::EntityRegistry;

fn plain_params() -> ConnectionParams {
    ConnectionParams {
        ip: "10.0.0.5:6053".to_string(),
        noise_psk: None,
        password: Some("pw".to_string()),
        name: None,
    }
}

fn fake_server() -> PlainConnection {
    let mut s = PlainConnection::new("server".to_string());
    s.connect();
    s
}

fn decode(server: &PlainConnection, packet: &Vec<u8>) -> (MessageType, Vec<u8>) {
    let (t, p, consumed) = server.recv_msg(packet).expect("server decodes client packet");
    assert_eq!(consumed, packet.len());
    (t, p)
}

/// Drive a plaintext session through connect, authenticate, identity,
/// discovery and subscription, with this test standing in for the device.
fn connected_session() -> (Device, PlainConnection) {
    let server = fake_server();
    let mut device = Device::new(1, plain_params());
    match &mut device.connection {
        Connection::Plain(c) => c.connect(),
        Connection::Noise(_) => panic!("a session without a pre-shared key is plaintext"),
    }

    let hello_packet = device.start_connect().unwrap();
    let (t, hello_payload) = decode(&server, &hello_packet);
    assert_eq!(t, MessageType::HelloRequest);
    let mut expected_hello: Vec<u8> = vec![10, 13];
    expected_hello.extend_from_slice(b"igloo-esphome");
    expected_hello.extend_from_slice(&[16, 1, 24, 9]);
    assert_eq!(hello_payload, expected_hello);

    let progress = device.handle_connect_message(MessageType::HelloResponse, &vec![]).unwrap();
    let connect_packet = match progress {
        ConnectProgress::SendConnect(p) => p,
        other => panic!("expected the authentication request, got {other:?}"),
    };
    let (t, connect_payload) = decode(&server, &connect_packet);
    assert_eq!(t, MessageType::ConnectRequest);
    assert_eq!(connect_payload, vec![10, 2, b'p', b'w']);

    // invalid_password = false: the canonical empty payload.
    let progress = device.handle_connect_message(MessageType::ConnectResponse, &vec![]).unwrap();
    let info_packet = match progress {
        ConnectProgress::SendInfoRequest(p) => p,
        other => panic!("expected the identity request, got {other:?}"),
    };
    let (t, info_payload) = decode(&server, &info_packet);
    assert_eq!(t, MessageType::DeviceInfoRequest);
    assert!(info_payload.is_empty());

    let info_bytes: Vec<u8> = vec![10, 3, b'd', b'e', b'v'];
    let progress = device
        .handle_connect_message(MessageType::DeviceInfoResponse, &info_bytes)
        .unwrap();
    match progress {
        ConnectProgress::Connected(info) => assert_eq!(info.name, "dev"),
        other => panic!("expected completion, got {other:?}"),
    }
    assert_eq!(device.phase(), SessionPhase::Ready);

    let discovery_packet = device.register_entities_request().unwrap();
    let (t, _) = decode(&server, &discovery_packet);
    assert_eq!(t, MessageType::ListEntitiesRequest);

    let outcome = device.register_entities_step(
        MessageType::ListEntitiesSwitchResponse,
        Some(DiscoveredEntity {
            key: 7,
            name: "relay".to_string(),
            attributes: vec![Attribute::Icon("mdi:power".to_string())],
        }),
    );
    match outcome {
        DiscoveryOutcome::Registered { entity_index, events } => {
            assert_eq!(entity_index, 0);
            assert_eq!(events.len(), 2);
            assert_eq!(
                events[0],
                HubEvent::EntityRegistered {
                    device_id: 1,
                    entity_name: "relay".to_string(),
                    entity_index: 0,
                }
            );
            assert_eq!(
                events[1],
                HubEvent::AttributesWritten {
                    device_id: 1,
                    entity_index: 0,
                    attributes: vec![Attribute::Icon("mdi:power".to_string())],
                }
            );
        },
        other => panic!("expected a registration, got {other:?}"),
    }

    // A services response and an unrecognized response are skipped.
    assert_eq!(
        device.register_entities_step(MessageType::ListEntitiesServicesResponse, None),
        DiscoveryOutcome::Skipped
    );
    assert_eq!(
        device.register_entities_step(MessageType::PingResponse, None),
        DiscoveryOutcome::Skipped
    );

    assert_eq!(
        device.register_entities_step(MessageType::ListEntitiesDoneResponse, None),
        DiscoveryOutcome::Finished
    );
    assert_eq!(device.phase(), SessionPhase::Discovered);

    let subscribe_packet = device.subscribe_states().unwrap();
    let (t, _) = decode(&server, &subscribe_packet);
    assert_eq!(t, MessageType::SubscribeStatesRequest);
    assert_eq!(device.phase(), SessionPhase::Running);

    (device, server)
}

#[test]
fn end_to_end_switch_scenario() {
    let (mut device, _server) = connected_session();

    // The run loop sees a switch state response addressed by key 7.
    let outcome = device.process_msg(MessageType::SwitchStateResponse, 1000).unwrap();
    assert_eq!(outcome, RunOutcome::StateUpdate);

    let event = device.process_state_update(
        MessageType::SwitchStateResponse,
        EntityStateUpdate {
            key: 7,
            missing_state: false,
            attributes: vec![Attribute::Switch(true)],
        },
    );
    assert_eq!(
        event,
        Some(HubEvent::AttributesWritten {
            device_id: 1,
            entity_index: 0,
            attributes: vec![Attribute::Switch(true)],
        })
    );
}

#[test]
fn shutdown_scenario_is_clean() {
    let (mut device, server) = connected_session();

    let outcome = device.process_msg(MessageType::DisconnectRequest, 1000).unwrap();
    let packet = match outcome {
        RunOutcome::Shutdown(p) => p,
        other => panic!("expected a shutdown, got {other:?}"),
    };
    let (t, payload) = decode(&server, &packet);
    assert_eq!(t, MessageType::DisconnectResponse);
    assert!(payload.is_empty());
    assert_eq!(device.phase(), SessionPhase::Closed);
    match &device.connection {
        Connection::Plain(c) => assert!(!c.is_connected()),
        Connection::Noise(_) => unreachable!(),
    }
}

#[test]
fn ping_and_time_replies() {
    let (mut device, server) = connected_session();

    let outcome = device.process_msg(MessageType::PingRequest, 0).unwrap();
    match outcome {
        RunOutcome::Reply(p) => {
            let (t, payload) = decode(&server, &p);
            assert_eq!(t, MessageType::PingResponse);
            assert!(payload.is_empty());
        },
        other => panic!("expected a reply, got {other:?}"),
    }

    assert_eq!(device.last_ping(), None);
    assert_eq!(device.process_msg(MessageType::PingResponse, 1234).unwrap(), RunOutcome::Ignored);
    assert_eq!(device.last_ping(), Some(1234));

    let outcome = device.process_msg(MessageType::GetTimeRequest, 1700000000).unwrap();
    match outcome {
        RunOutcome::Reply(p) => {
            let (t, payload) = decode(&server, &p);
            assert_eq!(t, MessageType::GetTimeResponse);
            let mut expected: Vec<u8> = vec![8];
            expected.extend(leb_encode(1700000000));
            assert_eq!(payload, expected);
        },
        other => panic!("expected a reply, got {other:?}"),
    }

    assert_eq!(
        device.process_msg(MessageType::SubscribeLogsResponse, 0).unwrap(),
        RunOutcome::Ignored
    );
    assert_eq!(device.process_msg(MessageType::HelloResponse, 0).unwrap(), RunOutcome::Ignored);
}

#[test]
fn unknown_entities_are_dropped_not_fatal() {
    let (device, _server) = connected_session();
    assert_eq!(device.process_igloo_write(0), Some((EntityType::Switch, 7)));
    assert_eq!(device.process_igloo_write(5), None);

    let event = device.process_state_update(
        MessageType::SwitchStateResponse,
        EntityStateUpdate { key: 9, missing_state: false, attributes: vec![] },
    );
    assert_eq!(event, None);

    let skipped = device.process_state_update(
        MessageType::SensorStateResponse,
        EntityStateUpdate { key: 7, missing_state: true, attributes: vec![] },
    );
    assert_eq!(skipped, None);
}

#[test]
fn wrong_message_type_fails_the_exchange() {
    let mut device = Device::new(4, plain_params());
    match &mut device.connection {
        Connection::Plain(c) => c.connect(),
        Connection::Noise(_) => unreachable!(),
    }
    device.start_connect().unwrap();
    let r = device.handle_connect_message(MessageType::PingRequest, &vec![]);
    assert_eq!(r, Err(DeviceError::WrongMessageType(MessageType::PingRequest)));
    assert_eq!(device.phase(), SessionPhase::HelloSent);
}

#[test]
fn invalid_password_fails_connect_without_connecting() {
    let mut device = Device::new(5, plain_params());
    match &mut device.connection {
        Connection::Plain(c) => c.connect(),
        Connection::Noise(_) => unreachable!(),
    }
    device.start_connect().unwrap();
    device.handle_connect_message(MessageType::HelloResponse, &vec![]).unwrap();
    let r = device.handle_connect_message(MessageType::ConnectResponse, &vec![8, 1]);
    assert_eq!(r, Err(DeviceError::InvalidPassword));
    assert_eq!(device.phase(), SessionPhase::ConnectSent);
}

#[test]
fn malformed_connect_response_is_a_decode_error() {
    let mut device = Device::new(6, plain_params());
    match &mut device.connection {
        Connection::Plain(c) => c.connect(),
        Connection::Noise(_) => unreachable!(),
    }
    device.start_connect().unwrap();
    device.handle_connect_message(MessageType::HelloResponse, &vec![]).unwrap();
    let r = device.handle_connect_message(MessageType::ConnectResponse, &vec![9, 9, 9]);
    assert_eq!(r, Err(DeviceError::PayloadDecode));
}

#[test]
fn sending_before_transport_established_fails() {
    let mut device = Device::new(7, plain_params());
    let r = device.start_connect();
    assert_eq!(
        r,
        Err(DeviceError::ConnectionError(ConnectionError::NotConnected))
    );
    assert_eq!(device.phase(), SessionPhase::Idle);
}

#[test]
fn force_disconnect_returns_session_to_idle() {
    let (mut device, _server) = connected_session();
    device.force_disconnect();
    assert_eq!(device.phase(), SessionPhase::Idle);
    match &device.connection {
        Connection::Plain(c) => assert!(!c.is_connected()),
        Connection::Noise(_) => unreachable!(),
    }
}

#[test]
fn disconnect_request_frames_the_farewell() {
    let (mut device, server) = connected_session();
    let packet = device.disconnect_request().unwrap();
    let (t, payload) = decode(&server, &packet);
    assert_eq!(t, MessageType::DisconnectRequest);
    assert!(payload.is_empty());
}

#[test]
fn duplicate_keys_are_not_registered_twice() {
    let mut device = Device::new(8, plain_params());
    match &mut device.connection {
        Connection::Plain(c) => c.connect(),
        Connection::Noise(_) => unreachable!(),
    }
    device.start_connect().unwrap();
    device.handle_connect_message(MessageType::HelloResponse, &vec![]).unwrap();
    device.handle_connect_message(MessageType::ConnectResponse, &vec![]).unwrap();
    device
        .handle_connect_message(MessageType::DeviceInfoResponse, &vec![])
        .unwrap();
    device.register_entities_request().unwrap();

    let first = device.register_entities_step(
        MessageType::ListEntitiesLightResponse,
        Some(DiscoveredEntity { key: 11, name: "a".to_string(), attributes: vec![] }),
    );
    assert!(matches!(first, DiscoveryOutcome::Registered { entity_index: 0, .. }));
    let second = device.register_entities_step(
        MessageType::ListEntitiesLightResponse,
        Some(DiscoveredEntity { key: 11, name: "b".to_string(), attributes: vec![] }),
    );
    assert_eq!(second, DiscoveryOutcome::Skipped);
}

#[test]
fn registry_bijection_after_distinct_registrations() {
    let mut reg = EntityRegistry::new();
    let keys = [70u32, 12, 99, 3, 4081];
    let kinds = [
        EntityType::Switch,
        EntityType::Light,
        EntityType::Sensor,
        EntityType::Cover,
        EntityType::Climate,
    ];
    for (i, (&k, &ty)) in keys.iter().zip(kinds.iter()).enumerate() {
        let idx = reg.register(ty, k);
        assert_eq!(idx, i);
    }
    assert_eq!(reg.len(), keys.len());
    for (i, (&k, &ty)) in keys.iter().zip(kinds.iter()).enumerate() {
        assert_eq!(reg.lookup_key(k), Some(i));
        assert_eq!(reg.lookup_index(i), Some((ty, k)));
    }
    assert_eq!(reg.lookup_key(500), None);
    assert_eq!(reg.lookup_index(keys.len()), None);
}

#[test]
fn device_new_selects_transport_by_psk_presence() {
    let device = Device::new(9, plain_params());
    assert!(matches!(device.connection, Connection::Plain(_)));

    let encrypted = Device::new(
        10,
        ConnectionParams {
            ip: "10.0.0.6:6053".to_string(),
            noise_psk: Some("AAAAAAAAAAAAAAAAAAAAAAAAAAAAAAAAAAAAAAAAAAA=".to_string()),
            password: None,
            name: None,
        },
    );
    assert!(matches!(encrypted.connection, Connection::Noise(_)));
}

#[test]
fn payload_codec_decoders() {
    assert_eq!(
        ConnectResponse::decode(&vec![]),
        Some(ConnectResponse { invalid_password: false })
    );
    assert_eq!(
        ConnectResponse::decode(&vec![8, 1]),
        Some(ConnectResponse { invalid_password: true })
    );
    // A legally encoded explicit default is accepted.
    assert_eq!(
        ConnectResponse::decode(&vec![8, 0]),
        Some(ConnectResponse { invalid_password: false })
    );
    // Any nonzero varint means true, including multi-byte encodings.
    assert_eq!(
        ConnectResponse::decode(&vec![8, 0x80, 0x01]),
        Some(ConnectResponse { invalid_password: true })
    );
    // A bare truncated varint is malformed.
    assert_eq!(ConnectResponse::decode(&vec![8]), None);

    assert_eq!(
        DeviceInfoResponse::decode(&vec![10, 3, b'a', b'b', b'c']),
        Some(DeviceInfoResponse { name: "abc".to_string() })
    );
    assert_eq!(
        DeviceInfoResponse::decode(&vec![]),
        Some(DeviceInfoResponse { name: String::new() })
    );
    // Content running past the buffer is malformed.
    assert_eq!(DeviceInfoResponse::decode(&vec![10, 9, b'a']), None);
    // Wire type 3 is a group marker, which this codec refuses.
    assert_eq!(DeviceInfoResponse::decode(&vec![11, 1, b'a']), None);
    // Field numbers above 15 would need multi-byte tags, refused here.
    assert_eq!(DeviceInfoResponse::decode(&vec![0x80, 1]), None);

    assert_eq!(GetTimeResponse { epoch_seconds: 0 }.encode(), Vec::<u8>::new());
    assert_eq!(GetTimeResponse { epoch_seconds: 5 }.encode(), vec![8, 5]);
    assert_eq!(leb_encode(300), vec![0xAC, 0x02]);
    assert_eq!(leb_encode(127), vec![127]);
}

#[test]
fn payload_decoders_skip_unknown_fields() {
    // field 2 (varint 5), then the invalid-password field.
    assert_eq!(
        ConnectResponse::decode(&vec![16, 5, 8, 1]),
        Some(ConnectResponse { invalid_password: true })
    );
    // Unknown length-delimited, fixed32 and fixed64 fields are skipped.
    let mut bytes = vec![26, 2, 0xAA, 0xBB];
    bytes.extend_from_slice(&[21, 1, 2, 3, 4]);
    bytes.extend_from_slice(&[17, 1, 2, 3, 4, 5, 6, 7, 8]);
    bytes.extend_from_slice(&[8, 1]);
    assert_eq!(
        ConnectResponse::decode(&bytes),
        Some(ConnectResponse { invalid_password: true })
    );

    // Unknown fields around the name, and the last occurrence wins.
    assert_eq!(
        DeviceInfoResponse::decode(&vec![8, 1, 10, 3, b'a', b'b', b'c', 16, 9]),
        Some(DeviceInfoResponse { name: "abc".to_string() })
    );
    assert_eq!(
        DeviceInfoResponse::decode(&vec![10, 1, b'x', 10, 1, b'y']),
        Some(DeviceInfoResponse { name: "y".to_string() })
    );
}

#[test]
fn disconnect_exchange_checks_the_reply_kind() {
    let (mut device, server) = connected_session();
    let packet = device.disconnect_request().unwrap();
    let (t, _) = decode(&server, &packet);
    assert_eq!(t, MessageType::DisconnectRequest);

    let r = device.handle_disconnect_response(MessageType::PingResponse);
    assert_eq!(r, Err(DeviceError::WrongMessageType(MessageType::PingResponse)));
    assert_eq!(device.phase(), SessionPhase::Running);

    device.handle_disconnect_response(MessageType::DisconnectResponse).unwrap();
    assert_eq!(device.phase(), SessionPhase::Idle);
    match &device.connection {
        Connection::Plain(c) => assert!(!c.is_connected()),
        Connection::Noise(_) => unreachable!(),
    }
}

#[test]
fn config_table_round_trips() {
    let mut config = Config::new();
    assert_eq!(config.len(), 0);
    config.add_device(41, plain_params());
    assert_eq!(config.len(), 1);
    let p = config.device(41).expect("configured device is found");
    assert_eq!(p.ip, "10.0.0.5:6053");
    assert_eq!(p.password.as_deref(), Some("pw"));
    assert!(config.device(42).is_none());
    config.remove_device(41);
    assert_eq!(config.len(), 0);
}
