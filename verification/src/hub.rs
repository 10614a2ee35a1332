//! The library's model of what crosses the hub boundary: typed attributes
//! of an entity, and the events a session emits toward the hub.

use vstd::prelude::*;

verus! {

/// One typed attribute of an entity, as the hub sees it.
#[derive(Clone, Debug, PartialEq, Eq)]
pub enum Attribute {
    /// A switch's on/off state.
    Switch(bool),
    /// A binary sensor's reading.
    Binary(bool),
    /// A free-text value.
    Text(String),
    /// An integral reading or setting.
    Integer(i64),
    /// The icon an entity advertises.
    Icon(String),
    /// The device class an entity advertises.
    DeviceClass(String),
    /// The entity belongs to the configuration category.
    Config,
    /// The entity belongs to the diagnostic category.
    Diagnostic,
}

/// An event a session emits on its outward channel to the hub.
#[derive(Clone, Debug, PartialEq, Eq)]
pub enum HubEvent {
    /// A newly discovered entity was assigned an index.
    EntityRegistered { device_id: u64, entity_name: String, entity_index: usize },
    /// An entity's attributes changed or were first reported.
    AttributesWritten { device_id: u64, entity_index: usize, attributes: Vec<Attribute> },
    /// A dynamically added device reported its identity.
    DeviceIdentityDiscovered { name: String },
}

} // verus!
