//! The MQTT session towards an upstream broker.
use vstd::prelude::*;
use std::time::Duration;

verus! {

/// An MQTT session towards an upstream broker.
pub struct MqttSession {
    /// How long to wait for a response, if there is a limit.
    pub(crate) read_timeout: Option<Duration>,
}

} // verus!
