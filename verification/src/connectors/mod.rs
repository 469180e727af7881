//! Connecting to upstream servers.
use vstd::prelude::*;
use crate::server::ServerConf;

pub mod mqtt;

verus! {

/// How connections to upstream servers are made and kept.
pub struct ConnectorOptions {
    /// How many idle connections are kept for reuse.
    pub keepalive_pool_size: usize,
}

impl ConnectorOptions {
    /// The options that a server configuration asks for.
    pub fn from_server_conf(conf: &ServerConf) -> (options: Self)
        ensures
            options.keepalive_pool_size == conf.upstream_keepalive_pool_size,
    {
        ConnectorOptions { keepalive_pool_size: conf.upstream_keepalive_pool_size }
    }
}

} // verus!
