//! The per-device session: connection parameters, the session lifecycle
//! state machine (connect, authenticate, discover, subscribe, run), and the
//! dispatch that translates between protocol messages and hub events. The
//! session owns its transport and its entity registry; the caller owns the
//! socket and hands frames in and wire bytes out.

use vstd::prelude::*;
use vstd::utf8::encode_utf8;

use crate::api::{
    spec_connect_request_bytes, spec_connect_response_parsed, spec_device_info_name_bytes,
    spec_get_time_bytes, spec_hello_request_bytes, ConnectRequest, ConnectResponse,
    DeviceInfoResponse, GetTimeResponse, HelloRequest,
};
use crate::connection::base::Connection;
use crate::connection::error::ConnectionError;
use crate::connection::noise::{spec_inner_frame, spec_outer_packet, utf8_lossy_of, NoiseConnection};
use crate::connection::plain::{spec_plain_packet, PlainConnection};
use crate::hub::{Attribute, HubEvent};
use crate::model::{
    spec_discovered_entity_type, spec_is_state_update, discovered_entity_type, is_state_update,
    msg_type_id, EntityType, MessageType,
};
use crate::registry::EntityRegistry;

verus! {

/// Immutable per-device identity: the address, the optional pre-shared key
/// that selects the encrypted transport, the optional password, and the
/// optional display name.
#[derive(Clone, Debug)]
pub struct ConnectionParams {
    pub ip: String,
    pub noise_psk: Option<String>,
    pub password: Option<String>,
    pub name: Option<String>,
}

/// Where a session stands in its required lifecycle order: connect,
/// authenticate, fetch identity, discover entities, subscribe, run.
#[derive(Clone, Copy, Debug, PartialEq, Eq, Structural)]
pub enum SessionPhase {
    /// No exchange has begun.
    Idle,
    /// The Hello was sent; its response is awaited.
    HelloSent,
    /// The Connect carrying the password was sent; its response is awaited.
    ConnectSent,
    /// Authentication succeeded; the identity request is outstanding.
    InfoRequested,
    /// The connect sequence completed.
    Ready,
    /// Entity discovery is running.
    Discovering,
    /// Discovery finished; the state subscription has not been sent yet.
    Discovered,
    /// The steady-state run loop is in charge.
    Running,
    /// The session ended.
    Closed,
}

/// Everything the session layer can fail with.
#[derive(Clone, Copy, Debug, PartialEq, Eq, Structural)]
pub enum DeviceError {
    /// No transport is established.
    NotConnected,
    /// The device asked for a clean shutdown; a terminal condition, not a
    /// crash.
    DeviceRequestShutdown,
    /// The device rejected the configured password.
    InvalidPassword,
    /// A transport or cryptographic failure.
    ConnectionError(ConnectionError),
    /// A fixed request/response exchange saw an unexpected message kind.
    WrongMessageType(MessageType),
    /// A payload did not parse as the expected message.
    PayloadDecode,
    /// A payload could not be built within the wire format's limits.
    PayloadEncode,
}

/// What one step of the steady-state run loop asks the caller to do.
#[derive(Debug, PartialEq, Eq)]
pub enum RunOutcome {
    /// Write these bytes to the socket and continue.
    Reply(Vec<u8>),
    /// Write these bytes to the socket, then leave the loop; the transport
    /// is already torn down.
    Shutdown(Vec<u8>),
    /// Nothing to do for this message.
    Ignored,
    /// The message is a per-capability state update: translate its payload
    /// and hand the result to `process_state_update`.
    StateUpdate,
}

/// The progress the connect sequence reports after each response.
#[derive(Debug, PartialEq, Eq)]
pub enum ConnectProgress {
    /// Write these bytes (the authentication request) and wait on.
    SendConnect(Vec<u8>),
    /// Write these bytes (the identity request) and wait on.
    SendInfoRequest(Vec<u8>),
    /// The sequence is complete; here is the device identity.
    Connected(DeviceInfoResponse),
}

/// An entity found during discovery, already translated by the
/// per-capability collaborator: its stable device key, its display name,
/// and its static capability attributes.
#[derive(Debug, PartialEq, Eq)]
pub struct DiscoveredEntity {
    pub key: u32,
    pub name: String,
    pub attributes: Vec<Attribute>,
}

/// What one discovery response did to the session.
#[derive(Debug, PartialEq, Eq)]
pub enum DiscoveryOutcome {
    /// The terminal response arrived; discovery is over.
    Finished,
    /// The response was recognized but carries no entity, or its key was
    /// already registered; nothing changed.
    Skipped,
    /// An entity was registered: its new index, and the events to put on
    /// the hub channel.
    Registered { entity_index: usize, events: Vec<HubEvent> },
}

/// A per-capability state update, already translated by the collaborator:
/// the device key it addresses, whether the payload declared no state
/// present, and the translated attributes.
#[derive(Debug, PartialEq, Eq)]
pub struct EntityStateUpdate {
    pub key: u32,
    pub missing_state: bool,
    pub attributes: Vec<Attribute>,
}

/// One device session.
pub struct Device {
    pub id: u64,
    pub params: ConnectionParams,
    pub connection: Connection,
    password: String,
    phase: SessionPhase,
    last_ping: Option<u32>,
    registry: EntityRegistry,
}

/// Whether `a` and `b` agree on everything but the transport state and the
/// lifecycle phase.
pub open spec fn spec_same_session_core(a: &Device, b: &Device) -> bool {
    &&& a.spec_id() == b.spec_id()
    &&& a.spec_password() == b.spec_password()
    &&& a.spec_params() == b.spec_params()
    &&& a.spec_registry() == b.spec_registry()
}

impl Device {
    pub closed spec fn spec_id(&self) -> u64 {
        self.id
    }

    pub closed spec fn spec_params(&self) -> ConnectionParams {
        self.params
    }

    pub closed spec fn spec_connection(&self) -> Connection {
        self.connection
    }

    /// The resolved password: the configured one, or empty.
    pub closed spec fn spec_password(&self) -> String {
        self.password
    }

    pub closed spec fn spec_phase(&self) -> SessionPhase {
        self.phase
    }

    /// The timestamp of the last ping response, in epoch seconds.
    pub closed spec fn spec_last_ping(&self) -> Option<u32> {
        self.last_ping
    }

    pub closed spec fn spec_registry(&self) -> EntityRegistry {
        self.registry
    }

    /// The session counts as connected once authentication has succeeded
    /// and until it is torn down.
    pub open spec fn spec_session_connected(&self) -> bool {
        match self.spec_phase() {
            SessionPhase::InfoRequested => true,
            SessionPhase::Ready => true,
            SessionPhase::Discovering => true,
            SessionPhase::Discovered => true,
            SessionPhase::Running => true,
            _ => false,
        }
    }

    /// Construct a session for `params`: encrypted when a pre-shared key
    /// is configured, plaintext otherwise; the transport is built
    /// disconnected and the registry empty.
    pub fn new(id: u64, params: ConnectionParams) -> (r: Device)
        ensures
            r.spec_id() == id,
            r.spec_params() == params,
            r.spec_phase() == SessionPhase::Idle,
            r.spec_last_ping() is None,
            r.spec_registry().wf(),
            r.spec_registry().spec_len() == 0,
            r.spec_registry().spec_key_map() == Map::<u32, usize>::empty(),
            !r.spec_connection().spec_connected(),
            (match params.noise_psk {
                Some(psk) => r.spec_connection() matches Connection::Noise(c) && c.spec_ip()@
                    == params.ip@ && c.spec_psk()@ == psk@,
                None => r.spec_connection() matches Connection::Plain(c) && c.spec_ip()@
                    == params.ip@,
            }),
            r.spec_password()@ == (match params.password {
                Some(p) => p@,
                None => Seq::<char>::empty(),
            }),
    {
        let connection: Connection = match &params.noise_psk {
            Some(psk) => Connection::Noise(NoiseConnection::new(params.ip.clone(), psk.clone())),
            None => Connection::Plain(PlainConnection::new(params.ip.clone())),
        };
        let password: String = match &params.password {
            Some(p) => p.clone(),
            None => String::new(),
        };
        Device {
            id,
            params,
            connection,
            password,
            phase: SessionPhase::Idle,
            last_ping: None,
            registry: EntityRegistry::new(),
        }
    }

    pub fn phase(&self) -> (r: SessionPhase)
        ensures
            r == self.spec_phase(),
    {
        self.phase
    }

    pub fn last_ping(&self) -> (r: Option<u32>)
        ensures
            r == self.spec_last_ping(),
    {
        self.last_ping
    }

    /// Encode `payload` as a message of kind `msg_type` through this
    /// session's transport and return the wire bytes.
    pub fn send_msg(&mut self, msg_type: MessageType, payload: &Vec<u8>) -> (r: Result<
        Vec<u8>,
        DeviceError,
    >)
        requires
            payload@.len() <= 0xFFFF_FFFF,
        ensures
            spec_same_session_core(old(self), final(self)),
            final(self).spec_phase() == old(self).spec_phase(),
            final(self).spec_last_ping() == old(self).spec_last_ping(),
            old(self).spec_connection().spec_same_identity(&final(self).spec_connection()),
            r matches Err(e) ==> e matches DeviceError::ConnectionError(_),
            !old(self).spec_connection().spec_connected() ==> r == Err::<Vec<u8>, DeviceError>(
                DeviceError::ConnectionError(ConnectionError::NotConnected),
            ),
            old(self).spec_connection() matches Connection::Plain(_) && old(self).spec_connection().spec_connected() ==> (r matches Ok(p) && p@ == spec_plain_packet(
                msg_type,
                payload@,
            )),
            old(self).spec_connection() matches Connection::Noise(_) ==> (r matches Ok(p)
                ==> exists|ct: Seq<u8>|
                ct.len() == spec_inner_frame(msg_type_id(msg_type), payload@).len() + 16
                    && ct.len() == payload@.len() + 20 && ct.len() <= 65535 && p@
                    == spec_outer_packet(ct)),
            old(self).spec_connection() matches Connection::Noise(_) && old(
                self,
            ).spec_connection().spec_connected() ==> (r matches Err(de) ==> de
                == DeviceError::ConnectionError(ConnectionError::NoiseDecrypt)),
            old(self).spec_connection() matches Connection::Noise(_) && old(
                self,
            ).spec_connection().spec_connected() && payload@.len() > 65515 ==> r == Err::<
                Vec<u8>,
                DeviceError,
            >(DeviceError::ConnectionError(ConnectionError::NoiseDecrypt)),
    {
        match self.connection.send_msg(msg_type, payload) {
            Ok(p) => Ok(p),
            Err(e) => Err(DeviceError::ConnectionError(e)),
        }
    }

    /// Tear down the transport without telling the device, and return the
    /// session to its disconnected state.
    pub fn force_disconnect(&mut self)
        ensures
            spec_same_session_core(old(self), final(self)),
            !final(self).spec_connection().spec_connected(),
            final(self).spec_phase() == SessionPhase::Idle,
            final(self).spec_last_ping() == old(self).spec_last_ping(),
    {
        self.connection.disconnect();
        self.phase = SessionPhase::Idle;
    }
}


impl Device {
    /// Begin the connect sequence: build and frame the capability Hello
    /// carrying the fixed client identity and API version. The transport
    /// must have been established by the caller first.
    pub fn start_connect(&mut self) -> (r: Result<Vec<u8>, DeviceError>)
        requires
            old(self).spec_phase() == SessionPhase::Idle,
        ensures
            spec_same_session_core(old(self), final(self)),
            final(self).spec_last_ping() == old(self).spec_last_ping(),
            old(self).spec_connection().spec_same_identity(&final(self).spec_connection()),
            r is Ok ==> final(self).spec_phase() == SessionPhase::HelloSent,
            r is Err ==> final(self).spec_phase() == SessionPhase::Idle,
            r matches Err(e) ==> e matches DeviceError::ConnectionError(_),
            !old(self).spec_connection().spec_connected() ==> r == Err::<Vec<u8>, DeviceError>(
                DeviceError::ConnectionError(ConnectionError::NotConnected),
            ),
            old(self).spec_connection() matches Connection::Plain(_) && old(self).spec_connection().spec_connected() ==> (r matches Ok(p) && p@ == spec_plain_packet(
                MessageType::HelloRequest,
                spec_hello_request_bytes(encode_utf8("igloo-esphome"@), 1, 9),
            )),
    {
        let hello = HelloRequest {
            client_info: "igloo-esphome".to_owned(),
            api_version_major: 1,
            api_version_minor: 9,
        };
        proof {
            reveal_strlit("igloo-esphome");
            assert(vstd::utf8::is_ascii_chars(hello.client_info@));
            vstd::utf8::is_ascii_chars_encode_utf8(hello.client_info@);
        }
        let payload: Vec<u8> = hello.encode();
        let packet: Vec<u8> = match self.send_msg(MessageType::HelloRequest, &payload) {
            Ok(p) => p,
            Err(e) => {
                return Err(e);
            },
        };
        self.phase = SessionPhase::HelloSent;
        Ok(packet)
    }

    /// Drive the connect sequence one response at a time. Any unexpected
    /// message kind in this fixed exchange is a hard failure; a response
    /// declaring the password invalid fails the whole connect operation
    /// and the session never reaches its connected state.
    pub fn handle_connect_message(&mut self, msg_type: MessageType, payload: &Vec<u8>) -> (r:
        Result<ConnectProgress, DeviceError>)
        requires
            old(self).spec_phase() == SessionPhase::HelloSent || old(self).spec_phase()
                == SessionPhase::ConnectSent || old(self).spec_phase()
                == SessionPhase::InfoRequested,
        ensures
            spec_same_session_core(old(self), final(self)),
            final(self).spec_last_ping() == old(self).spec_last_ping(),
            old(self).spec_connection().spec_same_identity(&final(self).spec_connection()),
            r is Err ==> final(self).spec_phase() == old(self).spec_phase(),
            old(self).spec_phase() == SessionPhase::HelloSent ==> {
                &&& msg_type != MessageType::HelloResponse ==> r == Err::<
                    ConnectProgress,
                    DeviceError,
                >(DeviceError::WrongMessageType(msg_type))
                &&& r is Ok ==> (r matches Ok(ConnectProgress::SendConnect(_))
                    && final(self).spec_phase() == SessionPhase::ConnectSent)
                &&& (msg_type == MessageType::HelloResponse && (old(self).spec_connection() matches Connection::Plain(_)) && old(self).spec_connection().spec_connected() && encode_utf8(old(self).spec_password()@).len() <= 0xFFFF_FF00) ==> (r matches Ok(
                    ConnectProgress::SendConnect(p),
                ) && p@ == spec_plain_packet(
                    MessageType::ConnectRequest,
                    spec_connect_request_bytes(encode_utf8(old(self).spec_password()@)),
                ))
            },
            old(self).spec_phase() == SessionPhase::ConnectSent ==> {
                &&& msg_type != MessageType::ConnectResponse ==> r == Err::<
                    ConnectProgress,
                    DeviceError,
                >(DeviceError::WrongMessageType(msg_type))
                &&& msg_type == MessageType::ConnectResponse && spec_connect_response_parsed(payload@)
                    is None ==> r == Err::<ConnectProgress, DeviceError>(
                    DeviceError::PayloadDecode,
                )
                &&& msg_type == MessageType::ConnectResponse && spec_connect_response_parsed(payload@)
                    == Some(true) ==> (r == Err::<ConnectProgress, DeviceError>(
                    DeviceError::InvalidPassword,
                ) && !final(self).spec_session_connected())
                &&& r is Ok ==> (r matches Ok(ConnectProgress::SendInfoRequest(_))
                    && final(self).spec_phase() == SessionPhase::InfoRequested
                    && spec_connect_response_parsed(payload@) == Some(false))
                &&& (msg_type == MessageType::ConnectResponse && spec_connect_response_parsed(payload@)
                    == Some(false) && (old(self).spec_connection() matches Connection::Plain(_))
                    && old(self).spec_connection().spec_connected()) ==> (r matches Ok(
                    ConnectProgress::SendInfoRequest(p),
                ) && p@ == spec_plain_packet(MessageType::DeviceInfoRequest, Seq::<u8>::empty()))
            },
            old(self).spec_phase() == SessionPhase::InfoRequested ==> {
                &&& msg_type != MessageType::DeviceInfoResponse ==> r == Err::<
                    ConnectProgress,
                    DeviceError,
                >(DeviceError::WrongMessageType(msg_type))
                &&& msg_type == MessageType::DeviceInfoResponse && spec_device_info_name_bytes(payload@) is None ==> r == Err::<ConnectProgress, DeviceError>(DeviceError::PayloadDecode)
                &&& r is Ok ==> (r matches Ok(ConnectProgress::Connected(_)) && final(self).spec_phase() == SessionPhase::Ready)
                &&& msg_type == MessageType::DeviceInfoResponse ==> (spec_device_info_name_bytes(payload@) matches Some(content) ==> (r matches Ok(ConnectProgress::Connected(info)) && (
                content.len() == 0 ==> info.name@.len() == 0) && (content.len() > 0
                    ==> info.name@ == utf8_lossy_of(content))))
            },
    {
        match self.phase {
            SessionPhase::HelloSent => {
                if !matches!(msg_type, MessageType::HelloResponse) {
                    return Err(DeviceError::WrongMessageType(msg_type));
                }
                let req = ConnectRequest { password: self.password.clone() };
                if req.password.as_str().as_bytes().len() as u64 > 0xFFFF_FF00u64 {
                    return Err(DeviceError::PayloadEncode);
                }
                let payload_out: Vec<u8> = req.encode();
                proof {
                    crate::api::lemma_leb_len(encode_utf8(self.password@).len() as u32);
                }
                let packet: Vec<u8> = match self.send_msg(
                    MessageType::ConnectRequest,
                    &payload_out,
                ) {
                    Ok(p) => p,
                    Err(e) => {
                        return Err(e);
                    },
                };
                self.phase = SessionPhase::ConnectSent;
                Ok(ConnectProgress::SendConnect(packet))
            },
            SessionPhase::ConnectSent => {
                if !matches!(msg_type, MessageType::ConnectResponse) {
                    return Err(DeviceError::WrongMessageType(msg_type));
                }
                let res: ConnectResponse = match ConnectResponse::decode(payload) {
                    Some(m) => m,
                    None => {
                        return Err(DeviceError::PayloadDecode);
                    },
                };
                if res.invalid_password {
                    return Err(DeviceError::InvalidPassword);
                }
                let empty: Vec<u8> = Vec::new();
                let packet: Vec<u8> = match self.send_msg(
                    MessageType::DeviceInfoRequest,
                    &empty,
                ) {
                    Ok(p) => p,
                    Err(e) => {
                        return Err(e);
                    },
                };
                self.phase = SessionPhase::InfoRequested;
                Ok(ConnectProgress::SendInfoRequest(packet))
            },
            SessionPhase::InfoRequested => {
                if !matches!(msg_type, MessageType::DeviceInfoResponse) {
                    return Err(DeviceError::WrongMessageType(msg_type));
                }
                let info: DeviceInfoResponse = match DeviceInfoResponse::decode(payload) {
                    Some(m) => m,
                    None => {
                        return Err(DeviceError::PayloadDecode);
                    },
                };
                self.phase = SessionPhase::Ready;
                Ok(ConnectProgress::Connected(info))
            },
            _ => {
                proof {
                    assert(false);
                }
                Err(DeviceError::NotConnected)
            },
        }
    }

    /// Open entity discovery: frame the discovery request and enter the
    /// discovering phase.
    pub fn register_entities_request(&mut self) -> (r: Result<Vec<u8>, DeviceError>)
        requires
            old(self).spec_phase() == SessionPhase::Ready,
        ensures
            spec_same_session_core(old(self), final(self)),
            final(self).spec_last_ping() == old(self).spec_last_ping(),
            old(self).spec_connection().spec_same_identity(&final(self).spec_connection()),
            r is Ok ==> final(self).spec_phase() == SessionPhase::Discovering,
            r is Err ==> final(self).spec_phase() == SessionPhase::Ready,
            r matches Err(e) ==> e matches DeviceError::ConnectionError(_),
            old(self).spec_connection() matches Connection::Plain(_) && old(self).spec_connection().spec_connected() ==> (r matches Ok(p) && p@ == spec_plain_packet(
                MessageType::ListEntitiesRequest,
                Seq::<u8>::empty(),
            )),
    {
        let empty: Vec<u8> = Vec::new();
        let packet: Vec<u8> = match self.send_msg(MessageType::ListEntitiesRequest, &empty) {
            Ok(p) => p,
            Err(e) => {
                return Err(e);
            },
        };
        self.phase = SessionPhase::Discovering;
        Ok(packet)
    }

    /// Register one discovered entity: assign the next sequential index and
    /// emit the registration notification and the initial attribute
    /// snapshot for the hub channel.
    pub fn register_entity(
        &mut self,
        entity_name: String,
        key: u32,
        entity_type: EntityType,
        attributes: Vec<Attribute>,
    ) -> (r: (usize, Vec<HubEvent>))
        requires
            old(self).spec_registry().wf(),
            !old(self).spec_registry().spec_key_map().contains_key(key),
            old(self).spec_registry().spec_len() < usize::MAX,
        ensures
            final(self).spec_id() == old(self).spec_id(),
            final(self).spec_password() == old(self).spec_password(),
            final(self).spec_params() == old(self).spec_params(),
            final(self).spec_connection() == old(self).spec_connection(),
            final(self).spec_phase() == old(self).spec_phase(),
            final(self).spec_last_ping() == old(self).spec_last_ping(),
            final(self).spec_registry().wf(),
            r.0 == old(self).spec_registry().spec_len(),
            final(self).spec_registry().spec_infos() == old(self).spec_registry().spec_infos().push((entity_type, key)),
            final(self).spec_registry().spec_key_map() == old(self).spec_registry().spec_key_map().insert(key, r.0),
            r.1@.len() == 2,
            r.1@[0] == (HubEvent::EntityRegistered {
                device_id: old(self).spec_id(),
                entity_name: entity_name,
                entity_index: r.0,
            }),
            r.1@[1] == (HubEvent::AttributesWritten {
                device_id: old(self).spec_id(),
                entity_index: r.0,
                attributes: attributes,
            }),
    {
        let idx: usize = self.registry.register(entity_type, key);
        let mut events: Vec<HubEvent> = Vec::new();
        events.push(
            HubEvent::EntityRegistered { device_id: self.id, entity_name, entity_index: idx },
        );
        events.push(
            HubEvent::AttributesWritten { device_id: self.id, entity_index: idx, attributes },
        );
        (idx, events)
    }

    /// Process one response of the discovery loop. The terminal response
    /// finishes discovery; a services response is recognized and skipped;
    /// an unrecognized response is skipped rather than failing the loop; a
    /// per-capability response registers the entity the collaborator
    /// decoded from it, unless its key is already registered.
    pub fn register_entities_step(&mut self, msg_type: MessageType, entity: Option<
        DiscoveredEntity,
    >) -> (r: DiscoveryOutcome)
        requires
            old(self).spec_phase() == SessionPhase::Discovering,
            old(self).spec_registry().wf(),
            old(self).spec_registry().spec_len() < usize::MAX,
            spec_discovered_entity_type(msg_type) is Some ==> entity is Some,
        ensures
            final(self).spec_id() == old(self).spec_id(),
            final(self).spec_password() == old(self).spec_password(),
            final(self).spec_params() == old(self).spec_params(),
            final(self).spec_connection() == old(self).spec_connection(),
            final(self).spec_last_ping() == old(self).spec_last_ping(),
            final(self).spec_registry().wf(),
            msg_type == MessageType::ListEntitiesDoneResponse ==> (r == DiscoveryOutcome::Finished
                && final(self).spec_phase() == SessionPhase::Discovered && final(self).spec_registry() == old(self).spec_registry()),
            msg_type != MessageType::ListEntitiesDoneResponse ==> final(self).spec_phase()
                == SessionPhase::Discovering,
            msg_type != MessageType::ListEntitiesDoneResponse && spec_discovered_entity_type(
                msg_type,
            ) is None ==> (r == DiscoveryOutcome::Skipped && final(self).spec_registry() == old(self).spec_registry()),
            spec_discovered_entity_type(msg_type) matches Some(ty) ==> (match entity {
                Some(e) => {
                    if old(self).spec_registry().spec_key_map().contains_key(e.key) {
                        r == DiscoveryOutcome::Skipped && final(self).spec_registry() == old(self).spec_registry()
                    } else {
                        &&& r matches DiscoveryOutcome::Registered { entity_index, events }
                        &&& entity_index == old(self).spec_registry().spec_len()
                        &&& final(self).spec_registry().spec_infos() == old(self).spec_registry().spec_infos().push((ty, e.key))
                        &&& final(self).spec_registry().spec_key_map() == old(self).spec_registry().spec_key_map().insert(e.key, entity_index)
                        &&& events@.len() == 2
                        &&& events@[0] == (HubEvent::EntityRegistered {
                            device_id: old(self).spec_id(),
                            entity_name: e.name,
                            entity_index: entity_index,
                        })
                        &&& events@[1] == (HubEvent::AttributesWritten {
                            device_id: old(self).spec_id(),
                            entity_index: entity_index,
                            attributes: e.attributes,
                        })
                    }
                },
                None => false,
            }),
    {
        if matches!(msg_type, MessageType::ListEntitiesDoneResponse) {
            self.phase = SessionPhase::Discovered;
            return DiscoveryOutcome::Finished;
        }
        if matches!(msg_type, MessageType::ListEntitiesServicesResponse) {
            return DiscoveryOutcome::Skipped;
        }
        let ty: EntityType = match discovered_entity_type(msg_type) {
            Some(ty) => ty,
            None => {
                return DiscoveryOutcome::Skipped;
            },
        };
        let e: DiscoveredEntity = match entity {
            Some(e) => e,
            None => {
                proof {
                    assert(false);
                }
                return DiscoveryOutcome::Skipped;
            },
        };
        if self.registry.contains_key(e.key) {
            return DiscoveryOutcome::Skipped;
        }
        let (entity_index, events): (usize, Vec<HubEvent>) = self.register_entity(
            e.name,
            e.key,
            ty,
            e.attributes,
        );
        DiscoveryOutcome::Registered { entity_index, events }
    }

    /// Send the state-change subscription; no response is expected, and the
    /// session enters its steady-state run loop.
    pub fn subscribe_states(&mut self) -> (r: Result<Vec<u8>, DeviceError>)
        requires
            old(self).spec_phase() == SessionPhase::Discovered,
        ensures
            spec_same_session_core(old(self), final(self)),
            final(self).spec_last_ping() == old(self).spec_last_ping(),
            old(self).spec_connection().spec_same_identity(&final(self).spec_connection()),
            r is Ok ==> final(self).spec_phase() == SessionPhase::Running,
            r is Err ==> final(self).spec_phase() == SessionPhase::Discovered,
            r matches Err(e) ==> e matches DeviceError::ConnectionError(_),
            old(self).spec_connection() matches Connection::Plain(_) && old(self).spec_connection().spec_connected() ==> (r matches Ok(p) && p@ == spec_plain_packet(
                MessageType::SubscribeStatesRequest,
                Seq::<u8>::empty(),
            )),
    {
        let empty: Vec<u8> = Vec::new();
        let packet: Vec<u8> = match self.send_msg(MessageType::SubscribeStatesRequest, &empty) {
            Ok(p) => p,
            Err(e) => {
                return Err(e);
            },
        };
        self.phase = SessionPhase::Running;
        Ok(packet)
    }
}


impl Device {
    /// Resolve a hub-issued write command's entity index to the entity type
    /// and device key it addresses. An unknown index resolves to nothing;
    /// the caller logs and drops the command, which is non-fatal.
    pub fn process_igloo_write(&self, entity_index: usize) -> (r: Option<(EntityType, u32)>)
        ensures
            (match r {
                Some(info) => entity_index < self.spec_registry().spec_len() && info == self
                    .spec_registry().spec_infos()[entity_index as int],
                None => entity_index >= self.spec_registry().spec_len(),
            }),
    {
        self.registry.lookup_index(entity_index)
    }

    /// Forward one translated state update to the hub channel: skipped when
    /// the payload declared no state present, dropped when the key is
    /// unknown, otherwise addressed by the key's registered index.
    pub fn apply_entity_update(&self, update: EntityStateUpdate) -> (r: Option<HubEvent>)
        ensures
            update.missing_state ==> r is None,
            !update.missing_state && !self.spec_registry().spec_key_map().contains_key(update.key)
                ==> r is None,
            !update.missing_state && self.spec_registry().spec_key_map().contains_key(update.key)
                ==> r == Some(HubEvent::AttributesWritten {
                device_id: self.spec_id(),
                entity_index: self.spec_registry().spec_key_map()[update.key],
                attributes: update.attributes,
            }),
    {
        if update.missing_state {
            return None;
        }
        match self.registry.lookup_key(update.key) {
            Some(idx) => Some(
                HubEvent::AttributesWritten {
                    device_id: self.id,
                    entity_index: idx,
                    attributes: update.attributes,
                },
            ),
            None => None,
        }
    }

    /// The state-update leg of the run loop dispatch. The five control
    /// kinds are handled before this point and can never reach it; a kind
    /// that is no state update is ignored here as well.
    pub fn process_state_update(&self, msg_type: MessageType, update: EntityStateUpdate) -> (r:
        Option<HubEvent>)
        requires
            msg_type != MessageType::DisconnectRequest,
            msg_type != MessageType::PingRequest,
            msg_type != MessageType::PingResponse,
            msg_type != MessageType::GetTimeRequest,
            msg_type != MessageType::SubscribeLogsResponse,
        ensures
            !spec_is_state_update(msg_type) ==> r is None,
            spec_is_state_update(msg_type) && update.missing_state ==> r is None,
            spec_is_state_update(msg_type) && !update.missing_state && !self
                .spec_registry().spec_key_map().contains_key(update.key) ==> r is None,
            spec_is_state_update(msg_type) && !update.missing_state && self
                .spec_registry().spec_key_map().contains_key(update.key) ==> r == Some(
                HubEvent::AttributesWritten {
                    device_id: self.spec_id(),
                    entity_index: self.spec_registry().spec_key_map()[update.key],
                    attributes: update.attributes,
                },
            ),
    {
        if is_state_update(msg_type) {
            self.apply_entity_update(update)
        } else {
            None
        }
    }

    /// One protocol message of the steady-state run loop, dispatched by
    /// kind: a disconnect request is answered and tears the session down; a
    /// ping request is answered; a ping response stamps the time; a
    /// get-time request is answered with the caller's clock; the log
    /// subscription acknowledgment is a no-op; a state update is handed
    /// back for translation; anything else is ignored.
    pub fn process_msg(&mut self, msg_type: MessageType, now_epoch_seconds: u32) -> (r: Result<
        RunOutcome,
        DeviceError,
    >)
        requires
            old(self).spec_phase() == SessionPhase::Running,
        ensures
            spec_same_session_core(old(self), final(self)),
            r matches Err(e) ==> e matches DeviceError::ConnectionError(_),
            r is Err ==> final(self).spec_phase() == SessionPhase::Running && old(
                self,
            ).spec_connection().spec_same_identity(&final(self).spec_connection()),
            r == Ok::<RunOutcome, DeviceError>(RunOutcome::StateUpdate) <==> spec_is_state_update(
                msg_type,
            ),
            msg_type == MessageType::DisconnectRequest ==> (r matches Ok(o) ==> (o matches
                RunOutcome::Shutdown(_) && !final(self).spec_connection().spec_connected()
                && final(self).spec_phase() == SessionPhase::Closed)),
            (msg_type == MessageType::DisconnectRequest && (old(
                self,
            ).spec_connection() matches Connection::Plain(_)) && old(
                self,
            ).spec_connection().spec_connected()) ==> (r matches Ok(RunOutcome::Shutdown(p)) && p@
                == spec_plain_packet(MessageType::DisconnectResponse, Seq::<u8>::empty())),
            (msg_type == MessageType::DisconnectRequest && (old(
                self,
            ).spec_connection() matches Connection::Noise(_))) ==> (r matches Ok(
                RunOutcome::Shutdown(p),
            ) ==> exists|ct: Seq<u8>|
                ct.len() == spec_inner_frame(
                    msg_type_id(MessageType::DisconnectResponse),
                    Seq::<u8>::empty(),
                ).len() + 16 && ct.len() <= 65535 && p@ == spec_outer_packet(ct)),
            (old(self).spec_connection() matches Connection::Noise(_)) && old(
                self,
            ).spec_connection().spec_connected() ==> (r matches Err(de) ==> de
                == DeviceError::ConnectionError(ConnectionError::NoiseDecrypt)),
            msg_type != MessageType::DisconnectRequest ==> (final(self).spec_phase()
                == SessionPhase::Running && old(self).spec_connection().spec_same_identity(
                &final(self).spec_connection(),
            )),
            msg_type == MessageType::PingRequest ==> (r matches Ok(o) ==> o matches
                RunOutcome::Reply(_)),
            (msg_type == MessageType::PingRequest && (old(
                self,
            ).spec_connection() matches Connection::Plain(_)) && old(
                self,
            ).spec_connection().spec_connected()) ==> (r matches Ok(RunOutcome::Reply(p)) && p@
                == spec_plain_packet(MessageType::PingResponse, Seq::<u8>::empty())),
            (msg_type == MessageType::PingRequest && (old(
                self,
            ).spec_connection() matches Connection::Noise(_))) ==> (r matches Ok(
                RunOutcome::Reply(p),
            ) ==> exists|ct: Seq<u8>|
                ct.len() == spec_inner_frame(
                    msg_type_id(MessageType::PingResponse),
                    Seq::<u8>::empty(),
                ).len() + 16 && ct.len() <= 65535 && p@ == spec_outer_packet(ct)),
            msg_type == MessageType::PingResponse ==> (r == Ok::<RunOutcome, DeviceError>(
                RunOutcome::Ignored,
            ) && final(self).spec_last_ping() == Some(now_epoch_seconds)),
            msg_type != MessageType::PingResponse ==> final(self).spec_last_ping() == old(
                self,
            ).spec_last_ping(),
            msg_type == MessageType::GetTimeRequest ==> (r matches Ok(o) ==> o matches
                RunOutcome::Reply(_)),
            (msg_type == MessageType::GetTimeRequest && (old(
                self,
            ).spec_connection() matches Connection::Plain(_)) && old(
                self,
            ).spec_connection().spec_connected()) ==> (r matches Ok(RunOutcome::Reply(p)) && p@
                == spec_plain_packet(
                MessageType::GetTimeResponse,
                spec_get_time_bytes(now_epoch_seconds),
            )),
            (msg_type == MessageType::GetTimeRequest && (old(
                self,
            ).spec_connection() matches Connection::Noise(_))) ==> (r matches Ok(
                RunOutcome::Reply(p),
            ) ==> exists|ct: Seq<u8>|
                ct.len() == spec_inner_frame(
                    msg_type_id(MessageType::GetTimeResponse),
                    spec_get_time_bytes(now_epoch_seconds),
                ).len() + 16 && ct.len() <= 65535 && p@ == spec_outer_packet(ct)),
            msg_type == MessageType::SubscribeLogsResponse ==> r == Ok::<RunOutcome, DeviceError>(
                RunOutcome::Ignored,
            ),
            (msg_type != MessageType::DisconnectRequest && msg_type != MessageType::PingRequest
                && msg_type != MessageType::PingResponse && msg_type
                != MessageType::GetTimeRequest && msg_type != MessageType::SubscribeLogsResponse
                && !spec_is_state_update(msg_type)) ==> r == Ok::<RunOutcome, DeviceError>(
                RunOutcome::Ignored,
            ),
    {
        match msg_type {
            MessageType::DisconnectRequest => {
                let empty: Vec<u8> = Vec::new();
                let packet: Vec<u8> = match self.send_msg(MessageType::DisconnectResponse, &empty)
                    {
                    Ok(p) => p,
                    Err(e) => {
                        return Err(e);
                    },
                };
                self.connection.disconnect();
                self.phase = SessionPhase::Closed;
                Ok(RunOutcome::Shutdown(packet))
            },
            MessageType::PingRequest => {
                let empty: Vec<u8> = Vec::new();
                let packet: Vec<u8> = match self.send_msg(MessageType::PingResponse, &empty) {
                    Ok(p) => p,
                    Err(e) => {
                        return Err(e);
                    },
                };
                Ok(RunOutcome::Reply(packet))
            },
            MessageType::PingResponse => {
                self.last_ping = Some(now_epoch_seconds);
                Ok(RunOutcome::Ignored)
            },
            MessageType::GetTimeRequest => {
                let reply = GetTimeResponse { epoch_seconds: now_epoch_seconds };
                let payload: Vec<u8> = reply.encode();
                proof {
                    crate::api::lemma_leb_len(now_epoch_seconds);
                }
                let packet: Vec<u8> = match self.send_msg(MessageType::GetTimeResponse, &payload)
                    {
                    Ok(p) => p,
                    Err(e) => {
                        return Err(e);
                    },
                };
                Ok(RunOutcome::Reply(packet))
            },
            MessageType::SubscribeLogsResponse => Ok(RunOutcome::Ignored),
            t => {
                if is_state_update(t) {
                    Ok(RunOutcome::StateUpdate)
                } else {
                    Ok(RunOutcome::Ignored)
                }
            },
        }
    }

    /// Check the reply to a library-initiated disconnect request: only a
    /// disconnect response completes the exchange and tears the transport
    /// down; any other kind is a hard failure that leaves the session as
    /// it was.
    pub fn handle_disconnect_response(&mut self, msg_type: MessageType) -> (r: Result<
        (),
        DeviceError,
    >)
        ensures
            spec_same_session_core(old(self), final(self)),
            final(self).spec_last_ping() == old(self).spec_last_ping(),
            msg_type != MessageType::DisconnectResponse ==> (r == Err::<(), DeviceError>(
                DeviceError::WrongMessageType(msg_type),
            ) && final(self).spec_phase() == old(self).spec_phase() && old(
                self,
            ).spec_connection().spec_same_identity(&final(self).spec_connection())),
            msg_type == MessageType::DisconnectResponse ==> (r == Ok::<(), DeviceError>(())
                && !final(self).spec_connection().spec_connected() && final(self).spec_phase()
                == SessionPhase::Idle),
    {
        if !matches!(msg_type, MessageType::DisconnectResponse) {
            return Err(DeviceError::WrongMessageType(msg_type));
        }
        self.force_disconnect();
        Ok(())
    }

    /// Frame the request that asks the device for a clean disconnect. On
    /// the matching response the caller completes the exchange with
    /// `handle_disconnect_response`.
    pub fn disconnect_request(&mut self) -> (r: Result<Vec<u8>, DeviceError>)
        ensures
            spec_same_session_core(old(self), final(self)),
            final(self).spec_phase() == old(self).spec_phase(),
            final(self).spec_last_ping() == old(self).spec_last_ping(),
            old(self).spec_connection().spec_same_identity(&final(self).spec_connection()),
            r matches Err(e) ==> e matches DeviceError::ConnectionError(_),
            !old(self).spec_connection().spec_connected() ==> r == Err::<Vec<u8>, DeviceError>(
                DeviceError::ConnectionError(ConnectionError::NotConnected),
            ),
            (old(self).spec_connection() matches Connection::Plain(_)) && old(
                self,
            ).spec_connection().spec_connected() ==> (r matches Ok(p) && p@ == spec_plain_packet(
                MessageType::DisconnectRequest,
                Seq::<u8>::empty(),
            )),
    {
        let empty: Vec<u8> = Vec::new();
        self.send_msg(MessageType::DisconnectRequest, &empty)
    }
}

} // verus!


