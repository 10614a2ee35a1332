use base64::Engine;
use igloo_esphome::connection::error::ConnectionError;
use igloo_esphome::connection::noise::{build_inner_frame, frame_len, parse_inner_frame, NoiseConnection};
use igloo_esphome::model::MessageType;

const NOISE_PARAMS: &str = "Noise_NNpsk0_25519_ChaChaPoly_SHA256";
const PROLOGUE: &[u8] = b"NoiseAPIInit\x00\x00";

fn psk_b64(key: &[u8; 32]) -> String {
    base64::prelude::BASE64_STANDARD.encode(key)
}

fn responder(key: &[u8; 32]) -> snow::HandshakeState {
    snow::Builder::new(NOISE_PARAMS.parse().unwrap())
        .psk(0, key)
        .unwrap()
        .prologue(PROLOGUE)
        .unwrap()
        .build_responder()
        .unwrap()
}

/// Complete the handshake between the library (initiator) and a snow
/// responder standing in for the device; returns the connected transport
/// and the responder's cipher state.
fn handshaken() -> (NoiseConnection, snow::TransportState) {
    let key = [7u8; 32];
    let mut conn = NoiseConnection::new("10.0.0.3:6053".to_string(), psk_b64(&key));
    let (hs, hello) = conn.begin_handshake().unwrap();

    // ClientHello layout: 3 magic bytes, outer header, reserved zero byte,
    // then the first handshake message.
    assert_eq!(&hello[0..3], &[0x01, 0x00, 0x00]);
    assert_eq!(hello[3], 0x01);
    let flen = (hello[4] as usize) * 256 + hello[5] as usize;
    assert_eq!(flen, hello.len() - 6);
    assert_eq!(hello[6], 0x00);
    let msg1 = &hello[7..];

    let mut dev = responder(&key);
    let mut buf = vec![0u8; 65535];
    dev.read_message(msg1, &mut buf).expect("responder accepts ClientHello");

    conn.process_server_hello(&vec![0x01, b's', b'r', b'v', 0x00]).unwrap();
    assert_eq!(conn.get_name(), Some("srv".to_string()));

    let n = dev.write_message(&[], &mut buf).unwrap();
    let mut frame = vec![0x00u8];
    frame.extend_from_slice(&buf[..n]);
    conn.complete_handshake(hs, &frame).unwrap();
    assert!(conn.is_connected());

    (conn, dev.into_transport_mode().unwrap())
}

fn contains_subslice(haystack: &[u8], needle: &[u8]) -> bool {
    !needle.is_empty() && haystack.windows(needle.len()).any(|w| w == needle)
}

#[test]
fn encrypted_send_is_decryptable_by_the_peer() {
    let (mut conn, mut dev) = handshaken();
    let payload: Vec<u8> = b"secret level 42".to_vec();
    let packet = conn.send_msg(MessageType::SwitchCommandRequest, &payload).unwrap();

    assert_eq!(packet[0], 0x01);
    let clen = (packet[1] as usize) * 256 + packet[2] as usize;
    let ct = &packet[3..];
    assert_eq!(ct.len(), clen);
    assert_eq!(ct.len(), payload.len() + 4 + 16);

    let mut buf = vec![0u8; 65535];
    let n = dev.read_message(ct, &mut buf).unwrap();
    let inner = &buf[..n];
    let tid = MessageType::SwitchCommandRequest.id();
    assert_eq!(inner[0], (tid / 256) as u8);
    assert_eq!(inner[1], (tid % 256) as u8);
    assert_eq!(inner[2], (payload.len() / 256) as u8);
    assert_eq!(inner[3], (payload.len() % 256) as u8);
    assert_eq!(&inner[4..], &payload[..]);
}

#[test]
fn encrypted_frame_hides_header_and_payload() {
    let (mut conn, _dev) = handshaken();
    let payload: Vec<u8> = b"a representative payload body".to_vec();
    let packet = conn.send_msg(MessageType::LightCommandRequest, &payload).unwrap();
    let ct = &packet[3..];

    let tid = MessageType::LightCommandRequest.id();
    let header = [
        (tid / 256) as u8,
        (tid % 256) as u8,
        (payload.len() / 256) as u8,
        (payload.len() % 256) as u8,
    ];
    let mut plaintext = header.to_vec();
    plaintext.extend_from_slice(&payload);

    assert!(!contains_subslice(ct, &plaintext));
    assert!(!contains_subslice(ct, &payload));
}

#[test]
fn encrypted_receive_round_trips() {
    let (mut conn, mut dev) = handshaken();
    let payload = b"state".to_vec();
    let tid = MessageType::SwitchStateResponse.id();
    let mut inner = vec![
        (tid / 256) as u8,
        (tid % 256) as u8,
        (payload.len() / 256) as u8,
        (payload.len() % 256) as u8,
    ];
    inner.extend_from_slice(&payload);
    let mut buf = vec![0u8; 65535];
    let n = dev.write_message(&inner, &mut buf).unwrap();
    let ct = buf[..n].to_vec();

    let (t, p) = conn.recv_msg(&ct).unwrap();
    assert_eq!(t, MessageType::SwitchStateResponse);
    assert_eq!(p, payload);
}

#[test]
fn encrypted_unknown_message_type_is_a_hard_error() {
    let (mut conn, mut dev) = handshaken();
    let inner = vec![0x27u8, 0x0F, 0, 0];  // identifier 9999
    let mut buf = vec![0u8; 65535];
    let n = dev.write_message(&inner, &mut buf).unwrap();
    let ct = buf[..n].to_vec();
    assert_eq!(conn.recv_msg(&ct), Err(ConnectionError::UnknownMessageType(9999)));
}

#[test]
fn encrypted_truncated_inner_frame_is_an_error() {
    let (mut conn, mut dev) = handshaken();
    let mut buf = vec![0u8; 65535];
    let n = dev.write_message(&[1u8], &mut buf).unwrap();
    let ct = buf[..n].to_vec();
    assert_eq!(conn.recv_msg(&ct), Err(ConnectionError::TruncatedFrame));
}

#[test]
fn encrypted_garbage_ciphertext_fails_decryption() {
    let (mut conn, _dev) = handshaken();
    assert_eq!(conn.recv_msg(&vec![0u8; 48]), Err(ConnectionError::NoiseDecrypt));
}

#[test]
fn encrypted_not_connected_is_an_error() {
    let mut conn = NoiseConnection::new("x".to_string(), psk_b64(&[1u8; 32]));
    assert_eq!(
        conn.send_msg(MessageType::PingRequest, &Vec::new()),
        Err(ConnectionError::NotConnected)
    );
    assert_eq!(conn.recv_msg(&vec![0u8; 20]), Err(ConnectionError::NotConnected));
}

#[test]
fn server_hello_with_wrong_marker_yields_unknown_protocol() {
    let key = [9u8; 32];
    let mut conn = NoiseConnection::new("x".to_string(), psk_b64(&key));
    let (_hs, _hello) = conn.begin_handshake().unwrap();
    let r = conn.process_server_hello(&vec![0x02, b'a', 0x00]);
    assert_eq!(r, Err(ConnectionError::ClientWantsUnknownNoiseProtocol(0x02)));
    assert!(!conn.is_connected());
    assert_eq!(conn.get_name(), None);
}

#[test]
fn server_hello_without_null_terminator_is_an_error() {
    let key = [9u8; 32];
    let mut conn = NoiseConnection::new("x".to_string(), psk_b64(&key));
    let r = conn.process_server_hello(&vec![0x01, b'a', b'b']);
    assert_eq!(r, Err(ConnectionError::MessageMissingNullTerminator));
}

#[test]
fn server_hello_name_decodes_lossily() {
    let key = [3u8; 32];
    let mut conn = NoiseConnection::new("x".to_string(), psk_b64(&key));
    conn.process_server_hello(&vec![0x01, b'd', 0xFF, b'v', 0x00]).unwrap();
    assert_eq!(conn.get_name(), Some("d\u{FFFD}v".to_string()));
}

#[test]
fn handshake_response_with_wrong_preamble_is_rejected() {
    let key = [5u8; 32];
    let mut conn = NoiseConnection::new("x".to_string(), psk_b64(&key));
    let (hs, _hello) = conn.begin_handshake().unwrap();
    let r = conn.complete_handshake(hs, &vec![0x01, 1, 2, 3]);
    assert_eq!(r, Err(ConnectionError::HandshakeHadWrongPreamble(0x01)));
    assert!(!conn.is_connected());
}

#[test]
fn pre_shared_key_must_be_base64_of_exactly_32_bytes() {
    let bad = NoiseConnection::new("x".to_string(), "!!!not base64!!!".to_string());
    assert!(matches!(bad.begin_handshake(), Err(ConnectionError::Base64DecodeSlice)));

    let oversized = base64::prelude::BASE64_STANDARD.encode([1u8; 64]);
    let big = NoiseConnection::new("x".to_string(), oversized);
    assert!(matches!(big.begin_handshake(), Err(ConnectionError::Base64DecodeSlice)));

    // A key decoding to fewer than 32 bytes is mis-sized, not zero-padded.
    let short = base64::prelude::BASE64_STANDARD.encode([1u8; 16]);
    let small = NoiseConnection::new("x".to_string(), short);
    assert!(matches!(small.begin_handshake(), Err(ConnectionError::Base64DecodeSlice)));
}

#[test]
fn inner_frame_layout_is_exact() {
    let payload = vec![0xDE, 0xAD];
    let frame = build_inner_frame(MessageType::SwitchCommandRequest, &payload);
    let tid = MessageType::SwitchCommandRequest.id();
    assert_eq!(frame, vec![(tid / 256) as u8, (tid % 256) as u8, 0, 2, 0xDE, 0xAD]);
    let empty = build_inner_frame(MessageType::PingResponse, &Vec::new());
    assert_eq!(empty, vec![0, 8, 0, 0]);
}

#[test]
fn encrypted_payload_length_is_capped() {
    let (mut conn, mut dev) = handshaken();
    let too_long = vec![0u8; 65516];
    assert_eq!(
        conn.send_msg(MessageType::CameraImageResponse, &too_long),
        Err(ConnectionError::NoiseDecrypt)
    );
    // The cap is tight: one byte less fills the outer envelope exactly.
    let max = vec![0u8; 65515];
    let packet = conn.send_msg(MessageType::CameraImageResponse, &max).unwrap();
    assert_eq!(packet.len(), 3 + 65535);
    let mut buf = vec![0u8; 65535];
    let n = dev.read_message(&packet[3..], &mut buf).unwrap();
    assert_eq!(n, 4 + 65515);
}

#[test]
fn wrong_pre_shared_key_fails_the_handshake() {
    let mut conn = NoiseConnection::new("x".to_string(), psk_b64(&[1u8; 32]));
    let (hs, hello) = conn.begin_handshake().unwrap();
    let mut dev = responder(&[2u8; 32]);
    let mut buf = vec![0u8; 65535];
    // The responder rejects the ClientHello outright, or answers with a
    // message the initiator cannot authenticate.
    if dev.read_message(&hello[7..], &mut buf).is_ok() {
        let n = dev.write_message(&[], &mut buf).unwrap();
        let mut frame = vec![0x00u8];
        frame.extend_from_slice(&buf[..n]);
        assert_eq!(conn.complete_handshake(hs, &frame), Err(ConnectionError::NoiseDecrypt));
        assert!(!conn.is_connected());
    }
}

#[test]
fn outer_frame_header_parsing() {
    assert_eq!(frame_len(&vec![0x01, 0x01, 0x00]), Ok(256));
    assert_eq!(frame_len(&vec![0x01, 0x00, 0x30]), Ok(48));
    assert_eq!(frame_len(&vec![0x02, 0x00, 0x05]), Err(ConnectionError::FrameHadWrongPreamble(2)));
}

#[test]
fn inner_frame_parser_rejects_short_plaintext() {
    assert_eq!(parse_inner_frame(&vec![1, 2, 3]), Err(ConnectionError::TruncatedFrame));
    let r = parse_inner_frame(&vec![0, 7, 0, 0]);
    assert_eq!(r, Ok((MessageType::PingRequest, vec![])));
}

#[test]
fn connection_enum_carries_encrypted_frames() {
    let (conn, mut dev) = handshaken();
    let mut connection = igloo_esphome::connection::base::Connection::Noise(conn);
    let payload = b"ab".to_vec();
    let packet = connection.send_msg(MessageType::TextCommandRequest, &payload).unwrap();

    // The peer answers with an encrypted frame; feed the whole packet,
    // header included, through the dispatching receive path.
    let tid = MessageType::TextStateResponse.id();
    let inner = vec![(tid / 256) as u8, (tid % 256) as u8, 0, 1, 0x2A];
    let mut buf = vec![0u8; 65535];

    // Consume our own packet on the peer side first so the cipher streams
    // stay aligned.
    let n = dev.read_message(&packet[3..], &mut buf).unwrap();
    assert_eq!(&buf[4..n], b"ab");

    let n = dev.write_message(&inner, &mut buf).unwrap();
    let mut wire = vec![0x01u8, (n / 256) as u8, (n % 256) as u8];
    wire.extend_from_slice(&buf[..n]);

    // A partial read is not an error, only a request for more bytes.
    let partial = wire[..wire.len() - 1].to_vec();
    assert_eq!(connection.recv_msg(&partial), Err(ConnectionError::Incomplete));

    let (t, p, consumed) = connection.recv_msg(&wire).unwrap();
    assert_eq!(t, MessageType::TextStateResponse);
    assert_eq!(p, vec![0x2A]);
    assert_eq!(consumed, wire.len());
}

#[test]
fn disconnect_discards_cipher_state_and_name() {
    let (mut conn, _dev) = handshaken();
    conn.disconnect();
    assert!(!conn.is_connected());
    assert_eq!(conn.get_name(), None);
    assert_eq!(
        conn.send_msg(MessageType::PingRequest, &Vec::new()),
        Err(ConnectionError::NotConnected)
    );
}
