//! Connection handling for HTTP and MQTT services: how an accepted
//! connection is dispatched to HTTP/1.1 or HTTP/2, how one HTTP request is
//! served through the module filters, and the MQTT connector, sessions and
//! proxy service.
pub mod apps;
pub mod connectors;
pub mod modules;
pub mod protocols;
pub mod server;
pub mod services;
pub mod proxy;
