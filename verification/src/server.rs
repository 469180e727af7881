//! The server configuration, as far as the services here read it.
use vstd::prelude::*;

verus! {

/// The configuration of a server that the proxy services read.
pub struct ServerConf {
    /// How many times a failed request to the upstream is retried.
    pub max_retries: usize,
    /// How many idle connections to upstreams are kept for reuse.
    pub upstream_keepalive_pool_size: usize,
}

} // verus!
