//! Connecting to MQTT 3 brokers.
use vstd::prelude::*;

verus! {

/// A connector to MQTT 3 brokers.
pub struct Connector {}

} // verus!
