//! The message-type registry: the closed numeric enumeration of protocol
//! message identifiers, with the total mapping between identifiers and
//! message kinds, and the capability categories entities fall into.

use vstd::prelude::*;

verus! {

/// Every message kind of the protocol schema. The numeric identifier of
/// each kind is given by [`msg_type_id`]; identifiers outside that mapping
/// are a hard decode error, never silently ignored.
#[derive(Clone, Copy, Debug, PartialEq, Eq, Structural)]
pub enum MessageType {
    HelloRequest,
    HelloResponse,
    ConnectRequest,
    ConnectResponse,
    DisconnectRequest,
    DisconnectResponse,
    PingRequest,
    PingResponse,
    DeviceInfoRequest,
    DeviceInfoResponse,
    ListEntitiesRequest,
    ListEntitiesBinarySensorResponse,
    ListEntitiesCoverResponse,
    ListEntitiesFanResponse,
    ListEntitiesLightResponse,
    ListEntitiesSensorResponse,
    ListEntitiesSwitchResponse,
    ListEntitiesTextSensorResponse,
    ListEntitiesDoneResponse,
    SubscribeStatesRequest,
    BinarySensorStateResponse,
    CoverStateResponse,
    FanStateResponse,
    LightStateResponse,
    SensorStateResponse,
    SwitchStateResponse,
    TextSensorStateResponse,
    SubscribeLogsRequest,
    SubscribeLogsResponse,
    CoverCommandRequest,
    FanCommandRequest,
    LightCommandRequest,
    SwitchCommandRequest,
    GetTimeRequest,
    GetTimeResponse,
    ListEntitiesServicesResponse,
    ListEntitiesCameraResponse,
    CameraImageResponse,
    CameraImageRequest,
    ListEntitiesClimateResponse,
    ClimateStateResponse,
    ClimateCommandRequest,
    ListEntitiesNumberResponse,
    NumberStateResponse,
    NumberCommandRequest,
    ListEntitiesSelectResponse,
    SelectStateResponse,
    SelectCommandRequest,
    ListEntitiesSirenResponse,
    SirenStateResponse,
    SirenCommandRequest,
    ListEntitiesLockResponse,
    LockStateResponse,
    LockCommandRequest,
    ListEntitiesButtonResponse,
    ButtonCommandRequest,
    ListEntitiesMediaPlayerResponse,
    MediaPlayerStateResponse,
    MediaPlayerCommandRequest,
    ListEntitiesAlarmControlPanelResponse,
    AlarmControlPanelStateResponse,
    AlarmControlPanelCommandRequest,
    ListEntitiesTextResponse,
    TextStateResponse,
    TextCommandRequest,
    ListEntitiesDateResponse,
    DateStateResponse,
    DateCommandRequest,
    ListEntitiesTimeResponse,
    TimeStateResponse,
    TimeCommandRequest,
    ListEntitiesEventResponse,
    EventResponse,
    ListEntitiesValveResponse,
    ValveStateResponse,
    ValveCommandRequest,
    ListEntitiesDateTimeResponse,
    DateTimeStateResponse,
    DateTimeCommandRequest,
    ListEntitiesUpdateResponse,
    UpdateStateResponse,
    UpdateCommandRequest,
}

/// The capability categories an entity can be discovered under.
#[derive(Clone, Copy, Debug, PartialEq, Eq, Structural)]
pub enum EntityType {
    BinarySensor,
    Cover,
    Fan,
    Light,
    Sensor,
    Switch,
    TextSensor,
    Camera,
    Climate,
    Number,
    Select,
    Siren,
    Lock,
    Button,
    MediaPlayer,
    AlarmControlPanel,
    Text,
    Date,
    Time,
    Event,
    Valve,
    DateTime,
    Update,
}

/// The schema-assigned numeric identifier of each message kind.
pub open spec fn msg_type_id(t: MessageType) -> u16 {
    match t {
        MessageType::HelloRequest => 1,
        MessageType::HelloResponse => 2,
        MessageType::ConnectRequest => 3,
        MessageType::ConnectResponse => 4,
        MessageType::DisconnectRequest => 5,
        MessageType::DisconnectResponse => 6,
        MessageType::PingRequest => 7,
        MessageType::PingResponse => 8,
        MessageType::DeviceInfoRequest => 9,
        MessageType::DeviceInfoResponse => 10,
        MessageType::ListEntitiesRequest => 11,
        MessageType::ListEntitiesBinarySensorResponse => 12,
        MessageType::ListEntitiesCoverResponse => 13,
        MessageType::ListEntitiesFanResponse => 14,
        MessageType::ListEntitiesLightResponse => 15,
        MessageType::ListEntitiesSensorResponse => 16,
        MessageType::ListEntitiesSwitchResponse => 17,
        MessageType::ListEntitiesTextSensorResponse => 18,
        MessageType::ListEntitiesDoneResponse => 19,
        MessageType::SubscribeStatesRequest => 20,
        MessageType::BinarySensorStateResponse => 21,
        MessageType::CoverStateResponse => 22,
        MessageType::FanStateResponse => 23,
        MessageType::LightStateResponse => 24,
        MessageType::SensorStateResponse => 25,
        MessageType::SwitchStateResponse => 26,
        MessageType::TextSensorStateResponse => 27,
        MessageType::SubscribeLogsRequest => 28,
        MessageType::SubscribeLogsResponse => 29,
        MessageType::CoverCommandRequest => 30,
        MessageType::FanCommandRequest => 31,
        MessageType::LightCommandRequest => 32,
        MessageType::SwitchCommandRequest => 33,
        MessageType::GetTimeRequest => 36,
        MessageType::GetTimeResponse => 37,
        MessageType::ListEntitiesServicesResponse => 41,
        MessageType::ListEntitiesCameraResponse => 43,
        MessageType::CameraImageResponse => 44,
        MessageType::CameraImageRequest => 45,
        MessageType::ListEntitiesClimateResponse => 46,
        MessageType::ClimateStateResponse => 47,
        MessageType::ClimateCommandRequest => 48,
        MessageType::ListEntitiesNumberResponse => 49,
        MessageType::NumberStateResponse => 50,
        MessageType::NumberCommandRequest => 51,
        MessageType::ListEntitiesSelectResponse => 52,
        MessageType::SelectStateResponse => 53,
        MessageType::SelectCommandRequest => 54,
        MessageType::ListEntitiesSirenResponse => 55,
        MessageType::SirenStateResponse => 56,
        MessageType::SirenCommandRequest => 57,
        MessageType::ListEntitiesLockResponse => 58,
        MessageType::LockStateResponse => 59,
        MessageType::LockCommandRequest => 60,
        MessageType::ListEntitiesButtonResponse => 61,
        MessageType::ButtonCommandRequest => 62,
        MessageType::ListEntitiesMediaPlayerResponse => 63,
        MessageType::MediaPlayerStateResponse => 64,
        MessageType::MediaPlayerCommandRequest => 65,
        MessageType::ListEntitiesAlarmControlPanelResponse => 94,
        MessageType::AlarmControlPanelStateResponse => 95,
        MessageType::AlarmControlPanelCommandRequest => 96,
        MessageType::ListEntitiesTextResponse => 97,
        MessageType::TextStateResponse => 98,
        MessageType::TextCommandRequest => 99,
        MessageType::ListEntitiesDateResponse => 100,
        MessageType::DateStateResponse => 101,
        MessageType::DateCommandRequest => 102,
        MessageType::ListEntitiesTimeResponse => 103,
        MessageType::TimeStateResponse => 104,
        MessageType::TimeCommandRequest => 105,
        MessageType::ListEntitiesEventResponse => 107,
        MessageType::EventResponse => 108,
        MessageType::ListEntitiesValveResponse => 109,
        MessageType::ValveStateResponse => 110,
        MessageType::ValveCommandRequest => 111,
        MessageType::ListEntitiesDateTimeResponse => 112,
        MessageType::DateTimeStateResponse => 113,
        MessageType::DateTimeCommandRequest => 114,
        MessageType::ListEntitiesUpdateResponse => 116,
        MessageType::UpdateStateResponse => 117,
        MessageType::UpdateCommandRequest => 118,
    }
}

/// The message kind denoted by `id`, if the registry knows it.
pub open spec fn msg_type_from_id(id: u16) -> Option<MessageType> {
    match id {
        1u16 => Some(MessageType::HelloRequest),
        2u16 => Some(MessageType::HelloResponse),
        3u16 => Some(MessageType::ConnectRequest),
        4u16 => Some(MessageType::ConnectResponse),
        5u16 => Some(MessageType::DisconnectRequest),
        6u16 => Some(MessageType::DisconnectResponse),
        7u16 => Some(MessageType::PingRequest),
        8u16 => Some(MessageType::PingResponse),
        9u16 => Some(MessageType::DeviceInfoRequest),
        10u16 => Some(MessageType::DeviceInfoResponse),
        11u16 => Some(MessageType::ListEntitiesRequest),
        12u16 => Some(MessageType::ListEntitiesBinarySensorResponse),
        13u16 => Some(MessageType::ListEntitiesCoverResponse),
        14u16 => Some(MessageType::ListEntitiesFanResponse),
        15u16 => Some(MessageType::ListEntitiesLightResponse),
        16u16 => Some(MessageType::ListEntitiesSensorResponse),
        17u16 => Some(MessageType::ListEntitiesSwitchResponse),
        18u16 => Some(MessageType::ListEntitiesTextSensorResponse),
        19u16 => Some(MessageType::ListEntitiesDoneResponse),
        20u16 => Some(MessageType::SubscribeStatesRequest),
        21u16 => Some(MessageType::BinarySensorStateResponse),
        22u16 => Some(MessageType::CoverStateResponse),
        23u16 => Some(MessageType::FanStateResponse),
        24u16 => Some(MessageType::LightStateResponse),
        25u16 => Some(MessageType::SensorStateResponse),
        26u16 => Some(MessageType::SwitchStateResponse),
        27u16 => Some(MessageType::TextSensorStateResponse),
        28u16 => Some(MessageType::SubscribeLogsRequest),
        29u16 => Some(MessageType::SubscribeLogsResponse),
        30u16 => Some(MessageType::CoverCommandRequest),
        31u16 => Some(MessageType::FanCommandRequest),
        32u16 => Some(MessageType::LightCommandRequest),
        33u16 => Some(MessageType::SwitchCommandRequest),
        36u16 => Some(MessageType::GetTimeRequest),
        37u16 => Some(MessageType::GetTimeResponse),
        41u16 => Some(MessageType::ListEntitiesServicesResponse),
        43u16 => Some(MessageType::ListEntitiesCameraResponse),
        44u16 => Some(MessageType::CameraImageResponse),
        45u16 => Some(MessageType::CameraImageRequest),
        46u16 => Some(MessageType::ListEntitiesClimateResponse),
        47u16 => Some(MessageType::ClimateStateResponse),
        48u16 => Some(MessageType::ClimateCommandRequest),
        49u16 => Some(MessageType::ListEntitiesNumberResponse),
        50u16 => Some(MessageType::NumberStateResponse),
        51u16 => Some(MessageType::NumberCommandRequest),
        52u16 => Some(MessageType::ListEntitiesSelectResponse),
        53u16 => Some(MessageType::SelectStateResponse),
        54u16 => Some(MessageType::SelectCommandRequest),
        55u16 => Some(MessageType::ListEntitiesSirenResponse),
        56u16 => Some(MessageType::SirenStateResponse),
        57u16 => Some(MessageType::SirenCommandRequest),
        58u16 => Some(MessageType::ListEntitiesLockResponse),
        59u16 => Some(MessageType::LockStateResponse),
        60u16 => Some(MessageType::LockCommandRequest),
        61u16 => Some(MessageType::ListEntitiesButtonResponse),
        62u16 => Some(MessageType::ButtonCommandRequest),
        63u16 => Some(MessageType::ListEntitiesMediaPlayerResponse),
        64u16 => Some(MessageType::MediaPlayerStateResponse),
        65u16 => Some(MessageType::MediaPlayerCommandRequest),
        94u16 => Some(MessageType::ListEntitiesAlarmControlPanelResponse),
        95u16 => Some(MessageType::AlarmControlPanelStateResponse),
        96u16 => Some(MessageType::AlarmControlPanelCommandRequest),
        97u16 => Some(MessageType::ListEntitiesTextResponse),
        98u16 => Some(MessageType::TextStateResponse),
        99u16 => Some(MessageType::TextCommandRequest),
        100u16 => Some(MessageType::ListEntitiesDateResponse),
        101u16 => Some(MessageType::DateStateResponse),
        102u16 => Some(MessageType::DateCommandRequest),
        103u16 => Some(MessageType::ListEntitiesTimeResponse),
        104u16 => Some(MessageType::TimeStateResponse),
        105u16 => Some(MessageType::TimeCommandRequest),
        107u16 => Some(MessageType::ListEntitiesEventResponse),
        108u16 => Some(MessageType::EventResponse),
        109u16 => Some(MessageType::ListEntitiesValveResponse),
        110u16 => Some(MessageType::ValveStateResponse),
        111u16 => Some(MessageType::ValveCommandRequest),
        112u16 => Some(MessageType::ListEntitiesDateTimeResponse),
        113u16 => Some(MessageType::DateTimeStateResponse),
        114u16 => Some(MessageType::DateTimeCommandRequest),
        116u16 => Some(MessageType::ListEntitiesUpdateResponse),
        117u16 => Some(MessageType::UpdateStateResponse),
        118u16 => Some(MessageType::UpdateCommandRequest),
        _ => None,
    }
}

impl MessageType {
    /// The numeric identifier this message kind travels under on the wire.
    pub fn id(&self) -> (r: u16)
        ensures
            r == msg_type_id(*self),
    {
        match *self {
            MessageType::HelloRequest => 1,
            MessageType::HelloResponse => 2,
            MessageType::ConnectRequest => 3,
            MessageType::ConnectResponse => 4,
            MessageType::DisconnectRequest => 5,
            MessageType::DisconnectResponse => 6,
            MessageType::PingRequest => 7,
            MessageType::PingResponse => 8,
            MessageType::DeviceInfoRequest => 9,
            MessageType::DeviceInfoResponse => 10,
            MessageType::ListEntitiesRequest => 11,
            MessageType::ListEntitiesBinarySensorResponse => 12,
            MessageType::ListEntitiesCoverResponse => 13,
            MessageType::ListEntitiesFanResponse => 14,
            MessageType::ListEntitiesLightResponse => 15,
            MessageType::ListEntitiesSensorResponse => 16,
            MessageType::ListEntitiesSwitchResponse => 17,
            MessageType::ListEntitiesTextSensorResponse => 18,
            MessageType::ListEntitiesDoneResponse => 19,
            MessageType::SubscribeStatesRequest => 20,
            MessageType::BinarySensorStateResponse => 21,
            MessageType::CoverStateResponse => 22,
            MessageType::FanStateResponse => 23,
            MessageType::LightStateResponse => 24,
            MessageType::SensorStateResponse => 25,
            MessageType::SwitchStateResponse => 26,
            MessageType::TextSensorStateResponse => 27,
            MessageType::SubscribeLogsRequest => 28,
            MessageType::SubscribeLogsResponse => 29,
            MessageType::CoverCommandRequest => 30,
            MessageType::FanCommandRequest => 31,
            MessageType::LightCommandRequest => 32,
            MessageType::SwitchCommandRequest => 33,
            MessageType::GetTimeRequest => 36,
            MessageType::GetTimeResponse => 37,
            MessageType::ListEntitiesServicesResponse => 41,
            MessageType::ListEntitiesCameraResponse => 43,
            MessageType::CameraImageResponse => 44,
            MessageType::CameraImageRequest => 45,
            MessageType::ListEntitiesClimateResponse => 46,
            MessageType::ClimateStateResponse => 47,
            MessageType::ClimateCommandRequest => 48,
            MessageType::ListEntitiesNumberResponse => 49,
            MessageType::NumberStateResponse => 50,
            MessageType::NumberCommandRequest => 51,
            MessageType::ListEntitiesSelectResponse => 52,
            MessageType::SelectStateResponse => 53,
            MessageType::SelectCommandRequest => 54,
            MessageType::ListEntitiesSirenResponse => 55,
            MessageType::SirenStateResponse => 56,
            MessageType::SirenCommandRequest => 57,
            MessageType::ListEntitiesLockResponse => 58,
            MessageType::LockStateResponse => 59,
            MessageType::LockCommandRequest => 60,
            MessageType::ListEntitiesButtonResponse => 61,
            MessageType::ButtonCommandRequest => 62,
            MessageType::ListEntitiesMediaPlayerResponse => 63,
            MessageType::MediaPlayerStateResponse => 64,
            MessageType::MediaPlayerCommandRequest => 65,
            MessageType::ListEntitiesAlarmControlPanelResponse => 94,
            MessageType::AlarmControlPanelStateResponse => 95,
            MessageType::AlarmControlPanelCommandRequest => 96,
            MessageType::ListEntitiesTextResponse => 97,
            MessageType::TextStateResponse => 98,
            MessageType::TextCommandRequest => 99,
            MessageType::ListEntitiesDateResponse => 100,
            MessageType::DateStateResponse => 101,
            MessageType::DateCommandRequest => 102,
            MessageType::ListEntitiesTimeResponse => 103,
            MessageType::TimeStateResponse => 104,
            MessageType::TimeCommandRequest => 105,
            MessageType::ListEntitiesEventResponse => 107,
            MessageType::EventResponse => 108,
            MessageType::ListEntitiesValveResponse => 109,
            MessageType::ValveStateResponse => 110,
            MessageType::ValveCommandRequest => 111,
            MessageType::ListEntitiesDateTimeResponse => 112,
            MessageType::DateTimeStateResponse => 113,
            MessageType::DateTimeCommandRequest => 114,
            MessageType::ListEntitiesUpdateResponse => 116,
            MessageType::UpdateStateResponse => 117,
            MessageType::UpdateCommandRequest => 118,
        }
    }

    /// Resolve a wire identifier in the registry.
    pub fn from_repr(id: u16) -> (r: Option<MessageType>)
        ensures
            r == msg_type_from_id(id),
    {
        match id {
            1u16 => Some(MessageType::HelloRequest),
            2u16 => Some(MessageType::HelloResponse),
            3u16 => Some(MessageType::ConnectRequest),
            4u16 => Some(MessageType::ConnectResponse),
            5u16 => Some(MessageType::DisconnectRequest),
            6u16 => Some(MessageType::DisconnectResponse),
            7u16 => Some(MessageType::PingRequest),
            8u16 => Some(MessageType::PingResponse),
            9u16 => Some(MessageType::DeviceInfoRequest),
            10u16 => Some(MessageType::DeviceInfoResponse),
            11u16 => Some(MessageType::ListEntitiesRequest),
            12u16 => Some(MessageType::ListEntitiesBinarySensorResponse),
            13u16 => Some(MessageType::ListEntitiesCoverResponse),
            14u16 => Some(MessageType::ListEntitiesFanResponse),
            15u16 => Some(MessageType::ListEntitiesLightResponse),
            16u16 => Some(MessageType::ListEntitiesSensorResponse),
            17u16 => Some(MessageType::ListEntitiesSwitchResponse),
            18u16 => Some(MessageType::ListEntitiesTextSensorResponse),
            19u16 => Some(MessageType::ListEntitiesDoneResponse),
            20u16 => Some(MessageType::SubscribeStatesRequest),
            21u16 => Some(MessageType::BinarySensorStateResponse),
            22u16 => Some(MessageType::CoverStateResponse),
            23u16 => Some(MessageType::FanStateResponse),
            24u16 => Some(MessageType::LightStateResponse),
            25u16 => Some(MessageType::SensorStateResponse),
            26u16 => Some(MessageType::SwitchStateResponse),
            27u16 => Some(MessageType::TextSensorStateResponse),
            28u16 => Some(MessageType::SubscribeLogsRequest),
            29u16 => Some(MessageType::SubscribeLogsResponse),
            30u16 => Some(MessageType::CoverCommandRequest),
            31u16 => Some(MessageType::FanCommandRequest),
            32u16 => Some(MessageType::LightCommandRequest),
            33u16 => Some(MessageType::SwitchCommandRequest),
            36u16 => Some(MessageType::GetTimeRequest),
            37u16 => Some(MessageType::GetTimeResponse),
            41u16 => Some(MessageType::ListEntitiesServicesResponse),
            43u16 => Some(MessageType::ListEntitiesCameraResponse),
            44u16 => Some(MessageType::CameraImageResponse),
            45u16 => Some(MessageType::CameraImageRequest),
            46u16 => Some(MessageType::ListEntitiesClimateResponse),
            47u16 => Some(MessageType::ClimateStateResponse),
            48u16 => Some(MessageType::ClimateCommandRequest),
            49u16 => Some(MessageType::ListEntitiesNumberResponse),
            50u16 => Some(MessageType::NumberStateResponse),
            51u16 => Some(MessageType::NumberCommandRequest),
            52u16 => Some(MessageType::ListEntitiesSelectResponse),
            53u16 => Some(MessageType::SelectStateResponse),
            54u16 => Some(MessageType::SelectCommandRequest),
            55u16 => Some(MessageType::ListEntitiesSirenResponse),
            56u16 => Some(MessageType::SirenStateResponse),
            57u16 => Some(MessageType::SirenCommandRequest),
            58u16 => Some(MessageType::ListEntitiesLockResponse),
            59u16 => Some(MessageType::LockStateResponse),
            60u16 => Some(MessageType::LockCommandRequest),
            61u16 => Some(MessageType::ListEntitiesButtonResponse),
            62u16 => Some(MessageType::ButtonCommandRequest),
            63u16 => Some(MessageType::ListEntitiesMediaPlayerResponse),
            64u16 => Some(MessageType::MediaPlayerStateResponse),
            65u16 => Some(MessageType::MediaPlayerCommandRequest),
            94u16 => Some(MessageType::ListEntitiesAlarmControlPanelResponse),
            95u16 => Some(MessageType::AlarmControlPanelStateResponse),
            96u16 => Some(MessageType::AlarmControlPanelCommandRequest),
            97u16 => Some(MessageType::ListEntitiesTextResponse),
            98u16 => Some(MessageType::TextStateResponse),
            99u16 => Some(MessageType::TextCommandRequest),
            100u16 => Some(MessageType::ListEntitiesDateResponse),
            101u16 => Some(MessageType::DateStateResponse),
            102u16 => Some(MessageType::DateCommandRequest),
            103u16 => Some(MessageType::ListEntitiesTimeResponse),
            104u16 => Some(MessageType::TimeStateResponse),
            105u16 => Some(MessageType::TimeCommandRequest),
            107u16 => Some(MessageType::ListEntitiesEventResponse),
            108u16 => Some(MessageType::EventResponse),
            109u16 => Some(MessageType::ListEntitiesValveResponse),
            110u16 => Some(MessageType::ValveStateResponse),
            111u16 => Some(MessageType::ValveCommandRequest),
            112u16 => Some(MessageType::ListEntitiesDateTimeResponse),
            113u16 => Some(MessageType::DateTimeStateResponse),
            114u16 => Some(MessageType::DateTimeCommandRequest),
            116u16 => Some(MessageType::ListEntitiesUpdateResponse),
            117u16 => Some(MessageType::UpdateStateResponse),
            118u16 => Some(MessageType::UpdateCommandRequest),
            _ => None,
        }
    }
}

/// Whether `t` is one of the per-capability state update responses that the
/// run loop forwards to the hub.
pub open spec fn spec_is_state_update(t: MessageType) -> bool {
    match t {
        MessageType::BinarySensorStateResponse
        | MessageType::CoverStateResponse
        | MessageType::FanStateResponse
        | MessageType::LightStateResponse
        | MessageType::SensorStateResponse
        | MessageType::SwitchStateResponse
        | MessageType::TextSensorStateResponse
        | MessageType::ClimateStateResponse
        | MessageType::NumberStateResponse
        | MessageType::SelectStateResponse
        | MessageType::SirenStateResponse
        | MessageType::LockStateResponse
        | MessageType::MediaPlayerStateResponse
        | MessageType::AlarmControlPanelStateResponse
        | MessageType::TextStateResponse
        | MessageType::DateStateResponse
        | MessageType::TimeStateResponse
        | MessageType::ValveStateResponse
        | MessageType::DateTimeStateResponse
        | MessageType::UpdateStateResponse => true,
        _ => false,
    }
}

/// Exec mirror of [`spec_is_state_update`].
pub fn is_state_update(t: MessageType) -> (r: bool)
    ensures
        r == spec_is_state_update(t),
{
    match t {
        MessageType::BinarySensorStateResponse
        | MessageType::CoverStateResponse
        | MessageType::FanStateResponse
        | MessageType::LightStateResponse
        | MessageType::SensorStateResponse
        | MessageType::SwitchStateResponse
        | MessageType::TextSensorStateResponse
        | MessageType::ClimateStateResponse
        | MessageType::NumberStateResponse
        | MessageType::SelectStateResponse
        | MessageType::SirenStateResponse
        | MessageType::LockStateResponse
        | MessageType::MediaPlayerStateResponse
        | MessageType::AlarmControlPanelStateResponse
        | MessageType::TextStateResponse
        | MessageType::DateStateResponse
        | MessageType::TimeStateResponse
        | MessageType::ValveStateResponse
        | MessageType::DateTimeStateResponse
        | MessageType::UpdateStateResponse => true,
        _ => false,
    }
}

/// The entity category described by a discovery response of kind `t`, if
/// `t` is one of the per-capability discovery responses.
pub open spec fn spec_discovered_entity_type(t: MessageType) -> Option<EntityType> {
    match t {
        MessageType::ListEntitiesBinarySensorResponse => Some(EntityType::BinarySensor),
        MessageType::ListEntitiesCoverResponse => Some(EntityType::Cover),
        MessageType::ListEntitiesFanResponse => Some(EntityType::Fan),
        MessageType::ListEntitiesLightResponse => Some(EntityType::Light),
        MessageType::ListEntitiesSensorResponse => Some(EntityType::Sensor),
        MessageType::ListEntitiesSwitchResponse => Some(EntityType::Switch),
        MessageType::ListEntitiesTextSensorResponse => Some(EntityType::TextSensor),
        MessageType::ListEntitiesCameraResponse => Some(EntityType::Camera),
        MessageType::ListEntitiesClimateResponse => Some(EntityType::Climate),
        MessageType::ListEntitiesNumberResponse => Some(EntityType::Number),
        MessageType::ListEntitiesSelectResponse => Some(EntityType::Select),
        MessageType::ListEntitiesSirenResponse => Some(EntityType::Siren),
        MessageType::ListEntitiesLockResponse => Some(EntityType::Lock),
        MessageType::ListEntitiesButtonResponse => Some(EntityType::Button),
        MessageType::ListEntitiesMediaPlayerResponse => Some(EntityType::MediaPlayer),
        MessageType::ListEntitiesAlarmControlPanelResponse => Some(EntityType::AlarmControlPanel),
        MessageType::ListEntitiesTextResponse => Some(EntityType::Text),
        MessageType::ListEntitiesDateResponse => Some(EntityType::Date),
        MessageType::ListEntitiesTimeResponse => Some(EntityType::Time),
        MessageType::ListEntitiesEventResponse => Some(EntityType::Event),
        MessageType::ListEntitiesValveResponse => Some(EntityType::Valve),
        MessageType::ListEntitiesDateTimeResponse => Some(EntityType::DateTime),
        MessageType::ListEntitiesUpdateResponse => Some(EntityType::Update),
        _ => None,
    }
}

/// Exec mirror of [`spec_discovered_entity_type`].
pub fn discovered_entity_type(t: MessageType) -> (r: Option<EntityType>)
    ensures
        r == spec_discovered_entity_type(t),
{
    match t {
        MessageType::ListEntitiesBinarySensorResponse => Some(EntityType::BinarySensor),
        MessageType::ListEntitiesCoverResponse => Some(EntityType::Cover),
        MessageType::ListEntitiesFanResponse => Some(EntityType::Fan),
        MessageType::ListEntitiesLightResponse => Some(EntityType::Light),
        MessageType::ListEntitiesSensorResponse => Some(EntityType::Sensor),
        MessageType::ListEntitiesSwitchResponse => Some(EntityType::Switch),
        MessageType::ListEntitiesTextSensorResponse => Some(EntityType::TextSensor),
        MessageType::ListEntitiesCameraResponse => Some(EntityType::Camera),
        MessageType::ListEntitiesClimateResponse => Some(EntityType::Climate),
        MessageType::ListEntitiesNumberResponse => Some(EntityType::Number),
        MessageType::ListEntitiesSelectResponse => Some(EntityType::Select),
        MessageType::ListEntitiesSirenResponse => Some(EntityType::Siren),
        MessageType::ListEntitiesLockResponse => Some(EntityType::Lock),
        MessageType::ListEntitiesButtonResponse => Some(EntityType::Button),
        MessageType::ListEntitiesMediaPlayerResponse => Some(EntityType::MediaPlayer),
        MessageType::ListEntitiesAlarmControlPanelResponse => Some(EntityType::AlarmControlPanel),
        MessageType::ListEntitiesTextResponse => Some(EntityType::Text),
        MessageType::ListEntitiesDateResponse => Some(EntityType::Date),
        MessageType::ListEntitiesTimeResponse => Some(EntityType::Time),
        MessageType::ListEntitiesEventResponse => Some(EntityType::Event),
        MessageType::ListEntitiesValveResponse => Some(EntityType::Valve),
        MessageType::ListEntitiesDateTimeResponse => Some(EntityType::DateTime),
        MessageType::ListEntitiesUpdateResponse => Some(EntityType::Update),
        _ => None,
    }
}

/// The registry is a bijection between the message kinds and their
/// identifiers: every kind resolves back from its own identifier.
pub proof fn lemma_msg_type_id_round_trip(t: MessageType)
    ensures
        msg_type_from_id(msg_type_id(t)) == Some(t),
{
}

/// Resolving an identifier and reading the identifier of the result leads
/// back to the same identifier.
pub proof fn lemma_msg_type_from_id_sound(id: u16)
    ensures
        msg_type_from_id(id) matches Some(t) ==> msg_type_id(t) == id,
{
}

} // verus!
