//! The encrypted transport: a Noise `NNpsk0` handshake over Curve25519,
//! ChaCha20-Poly1305 and SHA-256, followed by authenticated framing. The
//! inner envelope is four big-endian header bytes (message type, payload
//! length) plus the payload; it travels encrypted inside an outer envelope
//! of one preamble byte `0x01` and a big-endian 16-bit length.

use vstd::arithmetic::div_mod::lemma_fundamental_div_mod;
use vstd::prelude::*;

use crate::connection::error::ConnectionError;
use crate::model::{lemma_msg_type_id_round_trip, msg_type_from_id, msg_type_id, MessageType};

verus! {

#[verifier::external_type_specification]
#[verifier::external_body]
pub struct ExHandshakeState(snow::HandshakeState);

#[verifier::external_type_specification]
#[verifier::external_body]
pub struct ExTransportState(snow::TransportState);

/// What `String::from_utf8_lossy` makes of a byte sequence; the result
/// depends on the bytes alone.
pub uninterp spec fn utf8_lossy_of(bytes: Seq<u8>) -> Seq<char>;

/// Relies on std's `String::from_utf8_lossy`: a pure function of the
/// bytes, used for the peer display name, which need not be valid UTF-8.
#[verifier::external_body]
pub(crate) fn utf8_lossy(bytes: &Vec<u8>) -> (r: String)
    ensures
        r@ == utf8_lossy_of(bytes@),
{
    String::from_utf8_lossy(bytes).into_owned()
}

/// The library error every cryptographic failure surfaces as.
fn noise_failure<E>(_e: E) -> (r: ConnectionError)
    ensures
        r == ConnectionError::NoiseDecrypt,
{
    ConnectionError::NoiseDecrypt
}

/// Relies on snow's `Builder`: parses the protocol parameter string, sets
/// the pre-shared key at position 0 and the prologue, and builds the
/// handshake initiator.
#[verifier::external_body]
fn build_initiator(params: &str, psk: &[u8; 32], prologue: &Vec<u8>) -> (r: Result<
    snow::HandshakeState,
    ConnectionError,
>)
    ensures
        r matches Err(e) ==> e == ConnectionError::NoiseDecrypt,
{
    let parsed: snow::params::NoiseParams = params.parse().map_err(noise_failure)?;
    let b = snow::Builder::new(parsed).psk(0, psk).map_err(noise_failure)?;
    let b = b.prologue(prologue).map_err(noise_failure)?;
    b.build_initiator().map_err(noise_failure)
}

/// Relies on base64's standard-alphabet engine (`decode_slice`): decodes
/// the configured pre-shared key into a 32-byte buffer and reports how
/// many bytes were written, failing if the input is not valid base64 or
/// decodes to more than 32 bytes.
#[verifier::external_body]
fn decode_psk(noise_psk: &str) -> (r: Result<([u8; 32], usize), ConnectionError>)
    ensures
        r matches Ok((_, n)) ==> n <= 32,
        r matches Err(e) ==> e == ConnectionError::Base64DecodeSlice,
{
    let mut key = [0u8; 32];
    match base64::Engine::decode_slice(&base64::prelude::BASE64_STANDARD, noise_psk, &mut key) {
        Ok(n) => Ok((key, n)),
        Err(_) => Err(ConnectionError::Base64DecodeSlice),
    }
}

/// Relies on snow's `HandshakeState::write_message`: produces the next
/// handshake message, never longer than the 65535-byte Noise maximum.
#[verifier::external_body]
fn handshake_write(hs: &mut snow::HandshakeState) -> (r: Result<Vec<u8>, ConnectionError>)
    ensures
        r matches Ok(m) ==> m@.len() <= 65535,
        r matches Err(e) ==> e == ConnectionError::NoiseDecrypt,
{
    let mut buf = vec![0u8; 65535];
    match hs.write_message(&[], &mut buf) {
        Ok(n) => {
            buf.truncate(n);
            Ok(buf)
        },
        Err(_) => Err(ConnectionError::NoiseDecrypt),
    }
}

/// Relies on snow's `HandshakeState::read_message` with an empty payload
/// buffer: consumes the responder's handshake message, failing if it does
/// not authenticate.
#[verifier::external_body]
fn handshake_read(hs: &mut snow::HandshakeState, message: &Vec<u8>) -> (r: Result<
    (),
    ConnectionError,
>)
    ensures
        r matches Err(e) ==> e == ConnectionError::NoiseDecrypt,
{
    match hs.read_message(message, &mut []) {
        Ok(_) => Ok(()),
        Err(_) => Err(ConnectionError::NoiseDecrypt),
    }
}

/// Relies on snow's `HandshakeState::into_transport_mode`: turns the
/// completed handshake into the transport cipher state.
#[verifier::external_body]
fn into_transport(hs: snow::HandshakeState) -> (r: Result<snow::TransportState, ConnectionError>)
    ensures
        r matches Err(e) ==> e == ConnectionError::NoiseDecrypt,
{
    match hs.into_transport_mode() {
        Ok(ts) => Ok(ts),
        Err(_) => Err(ConnectionError::NoiseDecrypt),
    }
}

/// Relies on snow's `TransportState::write_message`: encrypts the frame as
/// one Noise transport message whose ciphertext is the plaintext plus the
/// 16-byte authentication tag, refusing anything past the 65535-byte
/// maximum.
#[verifier::external_body]
fn transport_encrypt(ts: &mut snow::TransportState, frame: &Vec<u8>) -> (r: Result<
    Vec<u8>,
    ConnectionError,
>)
    ensures
        r matches Ok(c) ==> c@.len() == frame@.len() + 16 && c@.len() <= 65535,
        r matches Err(e) ==> e == ConnectionError::NoiseDecrypt,
{
    let mut buf = vec![0u8; 65535];
    match ts.write_message(frame, &mut buf) {
        Ok(n) => {
            buf.truncate(n);
            Ok(buf)
        },
        Err(_) => Err(ConnectionError::NoiseDecrypt),
    }
}

/// Relies on snow's `TransportState::read_message`: decrypts one Noise
/// transport message; the plaintext is 16 bytes shorter than the
/// ciphertext, and a failed authentication tag is an error.
#[verifier::external_body]
fn transport_decrypt(ts: &mut snow::TransportState, ciphertext: &Vec<u8>) -> (r: Result<
    Vec<u8>,
    ConnectionError,
>)
    ensures
        r matches Ok(p) ==> p@.len() + 16 == ciphertext@.len(),
        r matches Err(e) ==> e == ConnectionError::NoiseDecrypt,
{
    let mut buf = vec![0u8; 65535];
    match ts.read_message(ciphertext, &mut buf) {
        Ok(n) => {
            buf.truncate(n);
            Ok(buf)
        },
        Err(_) => Err(ConnectionError::NoiseDecrypt),
    }
}

/// The inner envelope: big-endian message type and payload length, then
/// the payload.
pub open spec fn spec_inner_frame(tid: u16, payload: Seq<u8>) -> Seq<u8> {
    seq![
        (tid / 256) as u8,
        (tid % 256) as u8,
        ((payload.len() as u16) / 256) as u8,
        ((payload.len() as u16) % 256) as u8,
    ] + payload
}

/// The outer envelope: preamble `0x01` and big-endian 16-bit length, then
/// the body.
pub open spec fn spec_outer_packet(body: Seq<u8>) -> Seq<u8> {
    seq![1u8, ((body.len() as u16) / 256) as u8, ((body.len() as u16) % 256) as u8] + body
}

/// The ClientHello: the three magic bytes, then an outer envelope holding
/// one reserved zero byte and the first handshake message.
pub open spec fn spec_client_hello(hs_msg: Seq<u8>) -> Seq<u8> {
    seq![1u8, 0u8, 0u8] + spec_outer_packet(seq![0u8] + hs_msg)
}

/// Parse a decrypted inner envelope: the message kind from the first two
/// bytes, the payload after the four-byte header. An identifier outside
/// the registry is a hard error, never a silent skip.
pub open spec fn spec_parse_inner(pt: Seq<u8>) -> Result<(MessageType, Seq<u8>), ConnectionError> {
    if pt.len() < 4 {
        Err(ConnectionError::TruncatedFrame)
    } else {
        let tid = (pt[0] * 256 + pt[1]) as u16;
        match msg_type_from_id(tid) {
            None => Err(ConnectionError::UnknownMessageType(tid)),
            Some(t) => Ok((t, pt.skip(4))),
        }
    }
}

/// Exec mirror of [`spec_parse_inner`], shared by the receive path and its
/// callers.
pub fn parse_inner_frame(pt: &Vec<u8>) -> (r: Result<(MessageType, Vec<u8>), ConnectionError>)
    ensures
        (match spec_parse_inner(pt@) {
            Ok((t, p)) => r matches Ok((rt, rp)) && rt == t && rp@ == p,
            Err(e) => r matches Err(re) && re == e,
        }),
{
    if pt.len() < 4 {
        return Err(ConnectionError::TruncatedFrame);
    }
    let tid: u16 = (pt[0] as u16) * 256 + pt[1] as u16;
    let t: MessageType = match MessageType::from_repr(tid) {
        Some(t) => t,
        None => {
            return Err(ConnectionError::UnknownMessageType(tid));
        },
    };
    let mut payload: Vec<u8> = Vec::new();
    let mut i: usize = 4;
    while i < pt.len()
        invariant
            4 <= i <= pt@.len(),
            payload@ == pt@.subrange(4, i as int),
        decreases pt@.len() - i,
    {
        payload.push(pt[i]);
        i = i + 1;
        proof {
            assert(payload@ =~= pt@.subrange(4, i as int));
        }
    }
    proof {
        assert(payload@ =~= pt@.skip(4));
    }
    Ok((t, payload))
}

/// An identifier outside the registry makes the inner-envelope parse fail
/// with the unknown-type error; it is never silently skipped.
pub proof fn lemma_inner_unknown_type_is_error(pt: Seq<u8>)
    requires
        pt.len() >= 4,
        msg_type_from_id((pt[0] * 256 + pt[1]) as u16) is None,
    ensures
        spec_parse_inner(pt) == Err::<(MessageType, Seq<u8>), ConnectionError>(
            ConnectionError::UnknownMessageType((pt[0] * 256 + pt[1]) as u16),
        ),
{
}

/// The inner envelope decodes back to the kind and payload it was built
/// from.
pub proof fn lemma_inner_frame_round_trip(t: MessageType, payload: Seq<u8>)
    requires
        payload.len() <= 65535,
    ensures
        spec_parse_inner(spec_inner_frame(msg_type_id(t), payload)) == Ok::<
            (MessageType, Seq<u8>),
            ConnectionError,
        >((t, payload)),
{
    let tid = msg_type_id(t);
    let s = spec_inner_frame(tid, payload);
    lemma_fundamental_div_mod(tid as int, 256);
    assert(s[0] * 256 + s[1] == tid);
    lemma_msg_type_id_round_trip(t);
    assert(s.skip(4) =~= payload);
}

/// The outer envelope is invertible: its preamble is the marker byte, its
/// two header bytes give back exactly the body length, and the body
/// follows unchanged.
pub proof fn lemma_outer_packet_round_trip(body: Seq<u8>)
    requires
        body.len() <= 65535,
    ensures
        spec_outer_packet(body).len() == 3 + body.len(),
        spec_outer_packet(body)[0] == 1,
        spec_outer_packet(body)[1] * 256 + spec_outer_packet(body)[2] == body.len(),
        spec_outer_packet(body).skip(3) == body,
{
    lemma_fundamental_div_mod(body.len() as int, 256);
    assert(spec_outer_packet(body).skip(3) =~= body);
}

/// Build the inner envelope: the big-endian message-type and length
/// header, then the payload. This is exactly the plaintext the encrypted
/// send path hands to the cipher.
pub fn build_inner_frame(msg_type: MessageType, msg_bytes: &Vec<u8>) -> (r: Vec<u8>)
    requires
        msg_bytes@.len() <= 65531,
    ensures
        r@ == spec_inner_frame(msg_type_id(msg_type), msg_bytes@),
        r@.len() == 4 + msg_bytes@.len(),
{
    let tid: u16 = msg_type.id();
    let mut frame: Vec<u8> = Vec::new();
    frame.push((tid / 256) as u8);
    frame.push((tid % 256) as u8);
    let len16: u16 = msg_bytes.len() as u16;
    frame.push((len16 / 256) as u8);
    frame.push((len16 % 256) as u8);
    let ghost head: Seq<u8> = frame@;
    let mut i: usize = 0;
    while i < msg_bytes.len()
        invariant
            i <= msg_bytes@.len(),
            frame@ == head + msg_bytes@.subrange(0, i as int),
        decreases msg_bytes@.len() - i,
    {
        frame.push(msg_bytes[i]);
        i = i + 1;
        proof {
            assert(frame@ =~= head + msg_bytes@.subrange(0, i as int));
        }
    }
    proof {
        assert(frame@ =~= spec_inner_frame(msg_type_id(msg_type), msg_bytes@));
    }
    frame
}

/// Read the length out of an outer envelope header, checking the
/// preamble.
pub fn frame_len(header: &Vec<u8>) -> (r: Result<u16, ConnectionError>)
    requires
        header@.len() == 3,
    ensures
        header@[0] != 1 ==> r == Err::<u16, ConnectionError>(
            ConnectionError::FrameHadWrongPreamble(header@[0]),
        ),
        header@[0] == 1 ==> r == Ok::<u16, ConnectionError>(
            (header@[1] * 256 + header@[2]) as u16,
        ),
{
    if header[0] != 1 {
        return Err(ConnectionError::FrameHadWrongPreamble(header[0]));
    }
    Ok((header[1] as u16) * 256 + header[2] as u16)
}

/// An in-progress handshake, between the ClientHello and the responder's
/// answer.
pub struct NoiseHandshake {
    hs: snow::HandshakeState,
}

/// The encrypted transport. Constructed disconnected; `begin_handshake`,
/// `process_server_hello` and `complete_handshake` drive the connection
/// sequence, after which the transport cipher state is established and
/// `send_msg` / `recv_msg` carry framed messages.
pub struct NoiseConnection {
    pub ip: String,
    noise_psk: String,
    noise: Option<snow::TransportState>,
    pub server_name: Option<String>,
}

impl NoiseConnection {
    /// Whether the handshake has completed and the transport cipher state
    /// exists.
    pub closed spec fn spec_connected(&self) -> bool {
        self.noise is Some
    }

    /// The address this transport was configured with.
    pub closed spec fn spec_ip(&self) -> String {
        self.ip
    }

    /// The base64 pre-shared key this transport was configured with.
    pub closed spec fn spec_psk(&self) -> String {
        self.noise_psk
    }

    /// The peer display name from the ServerHello, once one was accepted.
    pub closed spec fn spec_server_name(&self) -> Option<String> {
        self.server_name
    }

    pub fn new(ip: String, noise_psk: String) -> (r: Self)
        ensures
            r.spec_ip() == ip,
            r.spec_psk() == noise_psk,
            !r.spec_connected(),
            r.spec_server_name() is None,
    {
        Self { ip, noise_psk, noise: None, server_name: None }
    }

    pub fn is_connected(&self) -> (r: bool)
        ensures
            r == self.spec_connected(),
    {
        self.noise.is_some()
    }

    /// Decode the pre-shared key, build the handshake initiator, and
    /// produce the ClientHello bytes to put on the wire. A key that is not
    /// exactly 32 bytes is mis-sized and refused. The handshake is run
    /// once per connection attempt; an established transport keeps its
    /// cipher state until it is torn down.
    pub fn begin_handshake(&self) -> (r: Result<(NoiseHandshake, Vec<u8>), ConnectionError>)
        requires
            !self.spec_connected(),
        ensures
            r matches Ok((h, b)) ==> exists|m: Seq<u8>|
                m.len() <= 65534 && b@ == spec_client_hello(m),
            r matches Err(e) ==> e == ConnectionError::Base64DecodeSlice || e
                == ConnectionError::NoiseDecrypt,
    {
        let (key, key_len): ([u8; 32], usize) = match decode_psk(self.noise_psk.as_str()) {
            Ok(k) => k,
            Err(e) => {
                return Err(e);
            },
        };
        if key_len != 32 {
            return Err(ConnectionError::Base64DecodeSlice);
        }
        let mut prologue: Vec<u8> = Vec::new();
        prologue.push(0x4e);  // 'N'
        prologue.push(0x6f);  // 'o'
        prologue.push(0x69);  // 'i'
        prologue.push(0x73);  // 's'
        prologue.push(0x65);  // 'e'
        prologue.push(0x41);  // 'A'
        prologue.push(0x50);  // 'P'
        prologue.push(0x49);  // 'I'
        prologue.push(0x49);  // 'I'
        prologue.push(0x6e);  // 'n'
        prologue.push(0x69);  // 'i'
        prologue.push(0x74);  // 't'
        prologue.push(0x00);
        prologue.push(0x00);
        let mut hs: snow::HandshakeState = match build_initiator(
            "Noise_NNpsk0_25519_ChaChaPoly_SHA256",
            &key,
            &prologue,
        ) {
            Ok(hs) => hs,
            Err(e) => {
                return Err(e);
            },
        };
        let msg: Vec<u8> = match handshake_write(&mut hs) {
            Ok(m) => m,
            Err(e) => {
                return Err(e);
            },
        };
        if msg.len() > 65534 {
            return Err(ConnectionError::NoiseDecrypt);
        }
        let flen: u16 = msg.len() as u16 + 1;
        let mut hello: Vec<u8> = Vec::new();
        hello.push(0x01);
        hello.push(0x00);
        hello.push(0x00);
        hello.push(0x01);
        hello.push((flen / 256) as u8);
        hello.push((flen % 256) as u8);
        hello.push(0x00);
        let mut i: usize = 0;
        let ghost head: Seq<u8> = hello@;
        while i < msg.len()
            invariant
                i <= msg@.len(),
                hello@ == head + msg@.subrange(0, i as int),
            decreases msg@.len() - i,
        {
            hello.push(msg[i]);
            i = i + 1;
            proof {
                assert(hello@ =~= head + msg@.subrange(0, i as int));
            }
        }
        proof {
            assert(hello@ =~= spec_client_hello(msg@));
        }
        Ok((NoiseHandshake { hs }, hello))
    }

    /// Accept the ServerHello frame: its first byte must be the protocol
    /// marker `0x01`, and the bytes up to the first null are the peer's
    /// display name. A wrong marker produces the unknown-protocol error
    /// and no transport state.
    pub fn process_server_hello(&mut self, frame: &Vec<u8>) -> (r: Result<(), ConnectionError>)
        ensures
            final(self).spec_ip() == old(self).spec_ip(),
            final(self).spec_psk() == old(self).spec_psk(),
            final(self).spec_connected() == old(self).spec_connected(),
            frame@.len() == 0 ==> r == Err::<(), ConnectionError>(ConnectionError::TruncatedFrame)
                && final(self).spec_server_name() == old(self).spec_server_name(),
            frame@.len() > 0 && frame@[0] != 1 ==> r == Err::<(), ConnectionError>(
                ConnectionError::ClientWantsUnknownNoiseProtocol(frame@[0]),
            ) && final(self).spec_server_name() == old(self).spec_server_name(),
            frame@.len() > 0 && frame@[0] == 1 && (forall|q: int|
                1 <= q < frame@.len() ==> frame@[q] != 0) ==> r == Err::<(), ConnectionError>(
                ConnectionError::MessageMissingNullTerminator,
            ) && final(self).spec_server_name() == old(self).spec_server_name(),
            r is Ok <==> (frame@.len() > 0 && frame@[0] == 1 && exists|i: int|
                1 <= i < frame@.len() && frame@[i] == 0),
            r is Ok ==> exists|i: int|
                {
                    &&& 1 <= i < frame@.len()
                    &&& frame@[i] == 0
                    &&& (forall|q: int| 1 <= q < i ==> frame@[q] != 0)
                    &&& final(self).spec_server_name() matches Some(n) && n@ == utf8_lossy_of(
                        frame@.subrange(1, i),
                    )
                },
    {
        if frame.len() == 0 {
            return Err(ConnectionError::TruncatedFrame);
        }
        if frame[0] != 1 {
            return Err(ConnectionError::ClientWantsUnknownNoiseProtocol(frame[0]));
        }
        let mut pos: usize = 1;
        while pos < frame.len() && frame[pos] != 0
            invariant
                1 <= pos <= frame@.len(),
                forall|q: int| 1 <= q < pos ==> frame@[q] != 0,
            decreases frame@.len() - pos,
        {
            pos = pos + 1;
        }
        if pos == frame.len() {
            return Err(ConnectionError::MessageMissingNullTerminator);
        }
        let mut name_bytes: Vec<u8> = Vec::new();
        let mut j: usize = 1;
        while j < pos
            invariant
                1 <= j <= pos <= frame@.len(),
                name_bytes@ == frame@.subrange(1, j as int),
            decreases pos - j,
        {
            name_bytes.push(frame[j]);
            j = j + 1;
            proof {
                assert(name_bytes@ =~= frame@.subrange(1, j as int));
            }
        }
        let name: String = utf8_lossy(&name_bytes);
        self.server_name = Some(name);
        Ok(())
    }

    /// Accept the handshake response frame: its first byte must be zero;
    /// the remainder completes the handshake and produces the transport
    /// cipher state. Any cryptographic failure leaves the transport
    /// unestablished.
    pub fn complete_handshake(&mut self, handshake: NoiseHandshake, frame: &Vec<u8>) -> (r: Result<
        (),
        ConnectionError,
    >)
        ensures
            final(self).spec_ip() == old(self).spec_ip(),
            final(self).spec_psk() == old(self).spec_psk(),
            final(self).spec_server_name() == old(self).spec_server_name(),
            frame@.len() == 0 ==> r == Err::<(), ConnectionError>(ConnectionError::TruncatedFrame)
                && final(self).spec_connected() == old(self).spec_connected(),
            frame@.len() > 0 && frame@[0] != 0 ==> r == Err::<(), ConnectionError>(
                ConnectionError::HandshakeHadWrongPreamble(frame@[0]),
            ) && final(self).spec_connected() == old(self).spec_connected(),
            r is Ok ==> final(self).spec_connected(),
            r is Err ==> final(self).spec_connected() == old(self).spec_connected(),
            frame@.len() > 0 && frame@[0] == 0 && r is Err ==> r == Err::<(), ConnectionError>(
                ConnectionError::NoiseDecrypt,
            ),
    {
        if frame.len() == 0 {
            return Err(ConnectionError::TruncatedFrame);
        }
        if frame[0] != 0 {
            return Err(ConnectionError::HandshakeHadWrongPreamble(frame[0]));
        }
        let mut rest: Vec<u8> = Vec::new();
        let mut i: usize = 1;
        while i < frame.len()
            invariant
                1 <= i <= frame@.len(),
                rest@ == frame@.subrange(1, i as int),
            decreases frame@.len() - i,
        {
            rest.push(frame[i]);
            i = i + 1;
            proof {
                assert(rest@ =~= frame@.subrange(1, i as int));
            }
        }
        let mut hs = handshake;
        match handshake_read(&mut hs.hs, &rest) {
            Ok(()) => {},
            Err(e) => {
                return Err(e);
            },
        }
        let ts: snow::TransportState = match into_transport(hs.hs) {
            Ok(ts) => ts,
            Err(e) => {
                return Err(e);
            },
        };
        self.noise = Some(ts);
        Ok(())
    }

    /// Encrypt `msg_bytes` as a message of kind `msg_type` and wrap it in
    /// the outer envelope. The plaintext handed to the cipher is exactly
    /// the inner envelope of [`build_inner_frame`]; the 65535-byte Noise
    /// ceiling, less the four header bytes and the 16-byte tag, caps the
    /// payload at 65515 bytes, and anything longer fails as a
    /// cryptographic error, as it would inside the cipher.
    pub fn send_msg(&mut self, msg_type: MessageType, msg_bytes: &Vec<u8>) -> (r: Result<
        Vec<u8>,
        ConnectionError,
    >)
        ensures
            final(self).spec_ip() == old(self).spec_ip(),
            final(self).spec_psk() == old(self).spec_psk(),
            final(self).spec_server_name() == old(self).spec_server_name(),
            final(self).spec_connected() == old(self).spec_connected(),
            !old(self).spec_connected() ==> r == Err::<Vec<u8>, ConnectionError>(
                ConnectionError::NotConnected,
            ),
            old(self).spec_connected() ==> (r matches Err(e) ==> e
                == ConnectionError::NoiseDecrypt),
            old(self).spec_connected() && msg_bytes@.len() > 65515 ==> r == Err::<
                Vec<u8>,
                ConnectionError,
            >(ConnectionError::NoiseDecrypt),
            r matches Ok(p) ==> exists|ct: Seq<u8>|
                ct.len() == spec_inner_frame(msg_type_id(msg_type), msg_bytes@).len() + 16
                    && ct.len() == msg_bytes@.len() + 20 && ct.len() <= 65535 && p@
                    == spec_outer_packet(ct),
    {
        if !self.is_connected() {
            return Err(ConnectionError::NotConnected);
        }
        if msg_bytes.len() > 65515 {
            return Err(ConnectionError::NoiseDecrypt);
        }
        let frame: Vec<u8> = build_inner_frame(msg_type, msg_bytes);
        let ct: Vec<u8> = match &mut self.noise {
            Some(ts) => {
                match transport_encrypt(ts, &frame) {
                    Ok(c) => c,
                    Err(e) => {
                        return Err(e);
                    },
                }
            },
            None => {
                return Err(ConnectionError::NotConnected);
            },
        };
        let ct_len: u16 = ct.len() as u16;
        let mut packet: Vec<u8> = Vec::new();
        packet.push(0x01);
        packet.push((ct_len / 256) as u8);
        packet.push((ct_len % 256) as u8);
        let ghost head: Seq<u8> = packet@;
        let mut j: usize = 0;
        while j < ct.len()
            invariant
                j <= ct@.len(),
                packet@ == head + ct@.subrange(0, j as int),
            decreases ct@.len() - j,
        {
            packet.push(ct[j]);
            j = j + 1;
            proof {
                assert(packet@ =~= head + ct@.subrange(0, j as int));
            }
        }
        proof {
            assert(packet@ =~= spec_outer_packet(ct@));
        }
        Ok(packet)
    }

    /// Decrypt one outer-envelope body and parse the inner envelope out of
    /// it. The caller reads the three header bytes, learns the body length
    /// through [`frame_len`], and hands the body here.
    pub fn recv_msg(&mut self, frame: &Vec<u8>) -> (r: Result<
        (MessageType, Vec<u8>),
        ConnectionError,
    >)
        ensures
            final(self).spec_ip() == old(self).spec_ip(),
            final(self).spec_psk() == old(self).spec_psk(),
            final(self).spec_server_name() == old(self).spec_server_name(),
            final(self).spec_connected() == old(self).spec_connected(),
            !old(self).spec_connected() ==> r == Err::<(MessageType, Vec<u8>), ConnectionError>(
                ConnectionError::NotConnected,
            ),
            old(self).spec_connected() ==> (r matches Err(e) ==> e
                == ConnectionError::NoiseDecrypt || e == ConnectionError::TruncatedFrame || e
                matches ConnectionError::UnknownMessageType(_)),
            r matches Ok((t, p)) ==> exists|pt: Seq<u8>|
                spec_parse_inner(pt) == Ok::<(MessageType, Seq<u8>), ConnectionError>((t, p@)),
    {
        let pt: Vec<u8> = match &mut self.noise {
            Some(ts) => {
                match transport_decrypt(ts, frame) {
                    Ok(p) => p,
                    Err(e) => {
                        return Err(e);
                    },
                }
            },
            None => {
                return Err(ConnectionError::NotConnected);
            },
        };
        match parse_inner_frame(&pt) {
            Ok((t, payload)) => Ok((t, payload)),
            Err(e) => Err(e),
        }
    }

    /// Tear down the transport unconditionally: cipher state and peer name
    /// are discarded whatever state the connection was in.
    pub fn disconnect(&mut self)
        ensures
            final(self).spec_ip() == old(self).spec_ip(),
            final(self).spec_psk() == old(self).spec_psk(),
            !final(self).spec_connected(),
            final(self).spec_server_name() is None,
    {
        self.noise = None;
        self.server_name = None;
    }

    /// The peer display name, if a ServerHello has been accepted.
    pub fn get_name(&self) -> (r: Option<String>)
        ensures
            (match r {
                Some(n) => self.spec_server_name() matches Some(m) && n@ == m@,
                None => self.spec_server_name() is None,
            }),
    {
        match &self.server_name {
            Some(n) => Some(n.clone()),
            None => None,
        }
    }
}

} // verus!
