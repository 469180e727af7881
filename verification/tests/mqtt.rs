use std::sync::Arc;
use pingora_mqtt::connectors::mqtt::Connector;
use pingora_mqtt::connectors::ConnectorOptions;
use pingora_mqtt::modules::http::{insert_by_order, HttpModules, ModuleBuilder};
use vstd::seq::Seq;
use pingora_mqtt::proxy::{mqtt_proxy_service, mqtt_proxy_service_with_name, Proxy};
use pingora_mqtt::server::ServerConf;

struct TwoModules;

impl Proxy for TwoModules {
    fn downstream_modules_after(&self, modules: Seq<ModuleBuilder>) -> Seq<ModuleBuilder> {
        insert_by_order(
            insert_by_order(modules, ModuleBuilder::with_order(1, 0)),
            ModuleBuilder::with_order(2, 7),
        )
    }

    fn downstream_modules_built_after(&self, _modules: Seq<ModuleBuilder>) -> bool {
        false
    }

    fn init_downstream_modules(&self, modules: &mut HttpModules) {
        modules.add_module(ModuleBuilder::with_order(1, 0));
        modules.add_module(ModuleBuilder::with_order(2, 7));
    }
}

struct NoModules;

impl Proxy for NoModules {
    fn downstream_modules_after(&self, modules: Seq<ModuleBuilder>) -> Seq<ModuleBuilder> {
        modules
    }

    fn downstream_modules_built_after(&self, _modules: Seq<ModuleBuilder>) -> bool {
        false
    }

    fn init_downstream_modules(&self, _modules: &mut HttpModules) {}
}

fn conf() -> Arc<ServerConf> {
    Arc::new(ServerConf { max_retries: 16, upstream_keepalive_pool_size: 128 })
}

#[test]
fn connector_is_mqtt3() {
    assert!(matches!(Connector::new(None), Connector::V3(_)));
    let options = ConnectorOptions { keepalive_pool_size: 4 };
    assert!(matches!(Connector::new(Some(options)), Connector::V3(_)));
}

#[test]
fn connector_options_follow_server_conf() {
    let c = conf();
    assert_eq!(ConnectorOptions::from_server_conf(&c).keepalive_pool_size, 128);
}

#[test]
fn proxy_service_has_the_default_name() {
    let service = mqtt_proxy_service(&conf(), NoModules);
    assert_eq!(service.name(), "Pingora HTTP Proxy Service");
    let proxy = service.app_logic();
    assert_eq!(proxy.max_retries(), 16);
    assert!(matches!(proxy.upstream(), Connector::V3(_)));
    assert!(proxy.server_options.is_none());
    assert_eq!(proxy.downstream_modules.len(), 0);
    assert!(!proxy.downstream_modules.built());
}

#[test]
fn proxy_service_with_name_sets_up_modules() {
    let service = mqtt_proxy_service_with_name(&conf(), TwoModules, "mqtt");
    assert_eq!(service.name(), "mqtt");
    let proxy = service.app_logic();
    assert_eq!(proxy.downstream_modules.len(), 2);
    assert!(!proxy.downstream_modules.built());
}
