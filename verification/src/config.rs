//! The configured device table: persistent device identifiers mapped to
//! their connection parameters. Loading and saving this table is the
//! caller's concern; the table itself and its lookups live here.

use std::collections::HashMap;
use vstd::prelude::*;

use crate::device::ConnectionParams;

verus! {

/// The device table a deployment starts from.
pub struct Config {
    devices: HashMap<u64, ConnectionParams>,
}

impl Config {
    /// The identifier-to-parameters mapping.
    pub closed spec fn spec_devices(&self) -> Map<u64, ConnectionParams> {
        self.devices@
    }

    pub fn new() -> (r: Self)
        ensures
            r.spec_devices() == Map::<u64, ConnectionParams>::empty(),
    {
        Config { devices: HashMap::new() }
    }

    pub fn len(&self) -> (r: usize)
        ensures
            r == self.spec_devices().dom().len(),
    {
        self.devices.len()
    }

    /// Record (or replace) the parameters a device connects with.
    pub fn add_device(&mut self, id: u64, params: ConnectionParams)
        ensures
            final(self).spec_devices() == old(self).spec_devices().insert(id, params),
    {
        self.devices.insert(id, params);
    }

    /// The parameters of device `id`, if it is configured.
    pub fn device(&self, id: u64) -> (r: Option<&ConnectionParams>)
        ensures
            (match r {
                Some(p) => self.spec_devices().contains_key(id) && *p == self.spec_devices()[id],
                None => !self.spec_devices().contains_key(id),
            }),
    {
        self.devices.get(&id)
    }

    /// Drop device `id` from the table.
    pub fn remove_device(&mut self, id: u64)
        ensures
            final(self).spec_devices() == old(self).spec_devices().remove(id),
    {
        self.devices.remove(&id);
    }
}

} // verus!
