//! MQTT sessions: towards the upstream broker and towards the downstream client.
pub mod client;
pub mod server;
