//! The service applications: what a server does with an accepted
//! connection and with each HTTP request read from it.
pub mod connection;
pub mod http_app;
pub mod server_session;
pub mod session;
