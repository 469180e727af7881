//! The MQTT session towards a downstream client.
use vstd::prelude::*;

verus! {

/// An MQTT session towards a downstream client.
pub struct MqttSession {}

} // verus!
