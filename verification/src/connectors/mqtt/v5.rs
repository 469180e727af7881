//! Connecting to MQTT 5 brokers.
use vstd::prelude::*;

verus! {

/// A connector to MQTT 5 brokers.
pub struct Connector {}

} // verus!
