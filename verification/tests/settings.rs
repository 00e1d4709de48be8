use visit_counter::config::{default_listen_address, default_redis_url, Config};
use visit_counter::telemetry::TelemetrySettings;

#[test]
fn defaults_are_the_local_addresses() {
    assert_eq!(default_redis_url(), "redis://127.0.0.1:6379");
    assert_eq!(default_listen_address(), "127.0.0.1:3000");
}

#[test]
fn default_config_holds_both_defaults() {
    assert_eq!(
        Config::default(),
        Config {
            redis_url: String::from("redis://127.0.0.1:6379"),
            listen_address: String::from("127.0.0.1:3000"),
        }
    );
}

#[test]
fn given_addresses_are_kept() {
    let config = Config::new(String::from("redis://cache:6380/1"), String::from("0.0.0.0:80"));
    assert_eq!(config.redis_url, "redis://cache:6380/1");
    assert_eq!(config.listen_address, "0.0.0.0:80");
}

#[test]
fn empty_addresses_take_their_defaults() {
    assert_eq!(Config::new(String::new(), String::new()), Config::default());
    let config = Config::new(String::new(), String::from("[::]:8080"));
    assert_eq!(config.redis_url, "redis://127.0.0.1:6379");
    assert_eq!(config.listen_address, "[::]:8080");
    let config = Config::new(String::from("redis://r"), String::new());
    assert_eq!(config.redis_url, "redis://r");
    assert_eq!(config.listen_address, "127.0.0.1:3000");
}

#[test]
fn blank_address_is_not_empty() {
    let config = Config::new(String::from(" "), String::from("not an address"));
    assert_eq!(config.redis_url, " ");
    assert_eq!(config.listen_address, "not an address");
}

#[test]
fn telemetry_defaults() {
    let settings = TelemetrySettings::resolve(None, None);
    assert_eq!(
        settings,
        TelemetrySettings {
            endpoint: String::from("http://127.0.0.1:4317"),
            service_name: String::from("opentelemetry-demo-app"),
            log_filter: String::from("info"),
        }
    );
}

#[test]
fn configured_telemetry_is_kept_as_it_is() {
    let settings = TelemetrySettings::resolve(
        Some(String::from("http://collector:4317")),
        Some(String::from("debug,hyper=warn")),
    );
    assert_eq!(settings.endpoint, "http://collector:4317");
    assert_eq!(settings.log_filter, "debug,hyper=warn");
    assert_eq!(settings.service_name, "opentelemetry-demo-app");

    let settings = TelemetrySettings::resolve(Some(String::new()), None);
    assert_eq!(settings.endpoint, "");
    assert_eq!(settings.log_filter, "info");
}
