//! Modules that filter HTTP requests and responses as they pass through a server.
pub mod http;
