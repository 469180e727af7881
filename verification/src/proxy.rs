//! The MQTT proxy service: what a server hosts to proxy MQTT clients to
//! upstream brokers.
use vstd::prelude::*;
use std::sync::Arc;
use tokio::sync::Notify;
use crate::apps::http_app::HttpServerOptions;
use crate::connectors::mqtt::Connector;
use crate::connectors::ConnectorOptions;
use crate::modules::http::{HttpModules, ModuleBuilder};
use crate::server::ServerConf;
use crate::services::Service;

verus! {

/// A notification primitive of `tokio`.
#[verifier::external_type_specification]
#[verifier::external_body]
pub struct ExNotify(tokio::sync::Notify);

/// `tokio::sync::Notify::new`: a new notifier. Nothing is stated of it:
/// the proxy only keeps it.
#[verifier::external_body]
fn new_notify() -> (notify: Notify) {
    Notify::new()
}

/// `Arc::clone`: another pointer to the same value.
#[verifier::external_body]
fn share<T>(value: &Arc<T>) -> (shared: Arc<T>)
    ensures
        *shared == **value,
{
    value.clone()
}

/// What the user of a proxy implements.
pub trait Proxy {
    /// The module builders this proxy leaves, given those it is handed.
    spec fn downstream_modules_after(&self, modules: Seq<ModuleBuilder>) -> Seq<ModuleBuilder>;

    /// Whether this proxy leaves the module contexts built, given the module
    /// builders it is handed.
    spec fn downstream_modules_built_after(&self, modules: Seq<ModuleBuilder>) -> bool;

    /// Set up the HTTP modules that filter downstream requests and responses.
    fn init_downstream_modules(&self, modules: &mut HttpModules)
        requires
            !old(modules).is_built(),
        ensures
            final(modules).modules() == self.downstream_modules_after(old(modules).modules()),
            final(modules).is_built() == self.downstream_modules_built_after(old(modules).modules()),
    ;
}

/// The proxy that holds the user's proxy logic.
pub struct MqttProxy<SV> {
    inner: SV,
    upstream: Connector,
    shutdown: Notify,
    pub server_options: Option<HttpServerOptions>,
    pub downstream_modules: HttpModules,
    max_retries: usize,
}

impl<SV> MqttProxy<SV> {
    /// The user's proxy logic.
    pub closed spec fn inner_spec(self) -> SV {
        self.inner
    }

    /// The connector to upstream brokers.
    pub closed spec fn upstream_spec(self) -> Connector {
        self.upstream
    }

    /// The HTTP server options of the proxy.
    pub closed spec fn server_options_spec(self) -> Option<HttpServerOptions> {
        self.server_options
    }

    /// The modules that filter downstream requests and responses.
    pub closed spec fn downstream_modules_spec(self) -> HttpModules {
        self.downstream_modules
    }

    /// How many times a failed upstream request is retried.
    pub closed spec fn max_retries_spec(self) -> usize {
        self.max_retries
    }

    fn new(inner: SV, conf: Arc<ServerConf>) -> (proxy: Self)
        ensures
            proxy.inner_spec() == inner,
            proxy.upstream_spec() is V3,
            proxy.server_options_spec() is None,
            proxy.downstream_modules_spec().modules() == Seq::<ModuleBuilder>::empty(),
            !proxy.downstream_modules_spec().is_built(),
            proxy.max_retries_spec() == conf.max_retries,
    {
        MqttProxy {
            inner,
            upstream: Connector::new(Some(ConnectorOptions::from_server_conf(&conf))),
            shutdown: new_notify(),
            server_options: None,
            downstream_modules: HttpModules::new(),
            max_retries: conf.max_retries,
        }
    }

    fn handle_init_modules(&mut self)
        where SV: Proxy
        requires
            !old(self).downstream_modules_spec().is_built(),
        ensures
            final(self).downstream_modules_spec().modules() == old(self).inner_spec().downstream_modules_after(
                old(self).downstream_modules_spec().modules(),
            ),
            final(self).downstream_modules_spec().is_built()
                == old(self).inner_spec().downstream_modules_built_after(
                old(self).downstream_modules_spec().modules(),
            ),
            final(self).inner_spec() == old(self).inner_spec(),
            final(self).shutdown == old(self).shutdown,
            final(self).upstream_spec() == old(self).upstream_spec(),
            final(self).max_retries_spec() == old(self).max_retries_spec(),
            final(self).server_options_spec() == old(self).server_options_spec(),
    {
        self.inner.init_downstream_modules(&mut self.downstream_modules);
    }

    /// The user's proxy logic.
    pub fn inner(&self) -> (inner: &SV)
        ensures
            *inner == self.inner_spec(),
    {
        &self.inner
    }

    /// The connector to upstream brokers.
    pub fn upstream(&self) -> (upstream: &Connector)
        ensures
            *upstream == self.upstream_spec(),
    {
        &self.upstream
    }

    /// How many times a failed upstream request is retried.
    pub fn max_retries(&self) -> (n: usize)
        ensures
            n == self.max_retries_spec(),
    {
        self.max_retries
    }
}

/// Create a [Service] from the user's [Proxy], named "Pingora HTTP Proxy Service".
pub fn mqtt_proxy_service<SV: Proxy>(conf: &Arc<ServerConf>, inner: SV) -> (service: Service<
    MqttProxy<SV>,
>)
    ensures
        service.name_spec() == "Pingora HTTP Proxy Service"@,
        service.app_spec().inner_spec() == inner,
        service.app_spec().upstream_spec() is V3,
        service.app_spec().server_options_spec() is None,
        service.app_spec().max_retries_spec() == conf.max_retries,
        service.app_spec().downstream_modules_spec().modules() == inner.downstream_modules_after(
            Seq::empty(),
        ),
        service.app_spec().downstream_modules_spec().is_built() == inner.downstream_modules_built_after(
            Seq::empty(),
        ),
{
    mqtt_proxy_service_with_name(conf, inner, "Pingora HTTP Proxy Service")
}

/// Create a [Service] with the given name from the user's [Proxy]: the
/// proxy connects to MQTT 3 brokers, retries as the configuration says, and
/// its downstream modules are those the user's proxy sets up.
pub fn mqtt_proxy_service_with_name<SV: Proxy>(
    conf: &Arc<ServerConf>,
    inner: SV,
    name: &str,
) -> (service: Service<MqttProxy<SV>>)
    ensures
        service.name_spec() == name@,
        service.app_spec().inner_spec() == inner,
        service.app_spec().upstream_spec() is V3,
        service.app_spec().server_options_spec() is None,
        service.app_spec().max_retries_spec() == conf.max_retries,
        service.app_spec().downstream_modules_spec().modules() == inner.downstream_modules_after(
            Seq::empty(),
        ),
        service.app_spec().downstream_modules_spec().is_built() == inner.downstream_modules_built_after(
            Seq::empty(),
        ),
{
    let mut proxy = MqttProxy::new(inner, share(conf));
    proxy.handle_init_modules();
    Service::new(name.to_string(), proxy)
}

} // verus!
