//! Connecting to upstream MQTT brokers.
use vstd::prelude::*;
use crate::connectors::ConnectorOptions;

pub mod v3;
pub mod v5;

verus! {

/// A connector to MQTT brokers, of one protocol version.
pub enum Connector {
    V3(v3::Connector),
    V5(v5::Connector),
}

impl Connector {
    /// A new connector; it speaks MQTT 3 whatever the options.
    pub fn new(opts: Option<ConnectorOptions>) -> (connector: Self)
        ensures
            connector is V3,
    {
        Connector::V3(v3::Connector {})
    }
}

} // verus!
