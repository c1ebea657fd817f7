//! Configurations: defaults, checks and errors.

use umans_throttle::config::{
    default_idle_timeout, default_max_wait, default_release_grace, default_shutdown_timeout,
    Config, ConfigDocument, ConfigError, ListenAddr, ObservabilityConfig, ObservabilityDocument,
    ServerDocument, ThrottleConfig, ThrottleDocument, UpstreamConfig, UsageSampling,
};
use umans_throttle::{AppState, Duration};

/// Reads the settings that these tests write.
fn document(text: &str) -> ConfigDocument {
    let table = text.parse::<toml::Table>().unwrap();
    let upstream = table["upstream"].as_table().unwrap();
    let server = table["server"].as_table().unwrap();
    let throttle = table["throttle"].as_table().unwrap();
    assert_eq!(server["listen"].as_str(), Some("127.0.0.1:0"));
    ConfigDocument {
        upstream: UpstreamConfig {
            base_url: upstream["base_url"].as_str().unwrap().to_string(),
        },
        server: ServerDocument {
            listen: ListenAddr::V4 { octets: [127, 0, 0, 1], port: 0 },
            shutdown_timeout: None,
        },
        throttle: ThrottleDocument {
            max_in_flight: throttle["max_in_flight"].as_integer().unwrap() as usize,
            max_wait: None,
            idle_timeout: None,
            release_grace: None,
        },
        observability: None,
    }
}

#[test]
fn config_rejects_max_in_flight_zero() {
    let cfg_str = r#"
[upstream]
base_url = "http://127.0.0.1:1"

[server]
listen = "127.0.0.1:0"

[throttle]
max_in_flight = 0
"#;
    let result = Config::parse_str(Ok(document(cfg_str)));
    assert!(result.is_err());
    let err = result.unwrap_err().message();
    assert!(
        err.contains("max_in_flight"),
        "error should mention max_in_flight: {err}"
    );
    assert_eq!(err, "invalid config: throttle.max_in_flight must be at least 1");
}

#[test]
fn config_rejects_empty_base_url() {
    let mut given = document(
        r#"
[upstream]
base_url = ""

[server]
listen = "127.0.0.1:0"

[throttle]
max_in_flight = 1
"#,
    );
    let err = Config::parse_str(Ok(given.clone())).unwrap_err();
    assert_eq!(err.message(), "invalid config: upstream.base_url must not be empty");
    // The limit is looked at first.
    given.throttle.max_in_flight = 0;
    let err = Config::parse_str(Ok(given)).unwrap_err();
    assert!(err.message().contains("max_in_flight"));
}

#[test]
fn absent_settings_have_defaults() {
    let given = document(
        r#"
[upstream]
base_url = "http://127.0.0.1:1/"

[server]
listen = "127.0.0.1:0"

[throttle]
max_in_flight = 3
"#,
    );
    let config = Config::load("config.toml", Ok(Ok(given))).unwrap();
    assert_eq!(config.throttle.max_in_flight, 3);
    assert_eq!(config.throttle.max_wait, Duration::from_secs(300));
    assert_eq!(config.throttle.idle_timeout, Duration::from_secs(120));
    assert_eq!(config.throttle.release_grace, Duration::from_millis(250));
    assert_eq!(config.server.shutdown_timeout, Duration::from_secs(30));
    assert_eq!(config.observability.usage_sampling, UsageSampling::On429);
    assert_eq!(default_max_wait(), Duration::from_secs(300));
    assert_eq!(default_idle_timeout(), Duration::from_secs(120));
    assert_eq!(default_release_grace(), Duration::from_millis(250));
    assert_eq!(default_shutdown_timeout(), Duration::from_secs(30));

    let state = AppState::from_config(&config).unwrap();
    assert_eq!(state.max_in_flight(), 3);
    assert_eq!(state.available_permits(), 3);
    assert_eq!(state.upstream_base(), "http://127.0.0.1:1");
}

#[test]
fn given_settings_are_kept() {
    let config = Config::from_document(ConfigDocument {
        upstream: UpstreamConfig { base_url: "https://api.code.umans.ai".to_string() },
        server: ServerDocument {
            listen: ListenAddr::V4 { octets: [0, 0, 0, 0], port: 8080 },
            shutdown_timeout: Some(Duration::from_secs(5)),
        },
        throttle: ThrottleDocument {
            max_in_flight: 4,
            max_wait: Some(Duration::from_millis(100)),
            idle_timeout: Some(Duration::from_millis(300)),
            release_grace: Some(Duration::from_secs(0)),
        },
        observability: Some(ObservabilityDocument { usage_sampling: Some(UsageSampling::Off) }),
    });
    assert!(config.validate().is_ok());
    assert_eq!(config.server.shutdown_timeout, Duration::from_secs(5));
    assert_eq!(config.throttle.max_wait, Duration::from_millis(100));
    assert_eq!(config.throttle.idle_timeout, Duration::from_millis(300));
    assert!(config.throttle.release_grace.is_zero());
    assert_eq!(config.observability.usage_sampling, UsageSampling::Off);
}

#[test]
fn default_tables() {
    let throttle = ThrottleConfig::default();
    assert_eq!(throttle.max_in_flight, 4);
    assert_eq!(throttle.max_wait, Duration::from_secs(300));
    assert_eq!(throttle.idle_timeout, Duration::from_secs(120));
    assert_eq!(throttle.release_grace, Duration::from_millis(250));
    assert_eq!(ObservabilityConfig::default().usage_sampling, UsageSampling::On429);
    assert_eq!(UsageSampling::default(), UsageSampling::On429);
}

#[test]
fn failures_are_told_in_words() {
    let err = Config::load("config.toml", Err("no such file".to_string())).unwrap_err();
    assert!(matches!(err, ConfigError::Read(_, _)));
    assert_eq!(err.message(), "failed to read config file config.toml: no such file");
    let err = Config::load("config.toml", Ok(Err("expected `=`".to_string()))).unwrap_err();
    assert!(matches!(err, ConfigError::Parse(_)));
    assert_eq!(err.message(), "failed to parse config: expected `=`");
}

#[test]
fn unusable_configurations_give_no_state() {
    let mut config = Config::from_document(document(
        r#"
[upstream]
base_url = "not a url"

[server]
listen = "127.0.0.1:0"

[throttle]
max_in_flight = 1
"#,
    ));
    assert!(AppState::from_config(&config).is_none());
    config.upstream.base_url = "http://127.0.0.1:1".to_string();
    assert!(AppState::from_config(&config).is_some());
    config.throttle.max_in_flight = tokio::sync::Semaphore::MAX_PERMITS + 1;
    assert!(AppState::from_config(&config).is_none());
}
