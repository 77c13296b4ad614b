use std::sync::Arc;

use sapa_backend::config::{
    normalize_cors_origins, Config, CorsOrigins, QueueRuntimeConfig, RawConfig,
    RouletteRuntimeConfig, RuntimeConfig, SessionRuntimeConfig, StaticConfig, TwitchConfig,
};
use sapa_backend::error::ConfigError;
use sapa_backend::store::{ConfigRepository, ConfigStore, InMemoryConfigRepository, SharedSettings};

#[test]
fn default_has_empty_widget_access_key() {
    let cfg = RuntimeConfig::default();
    assert!(cfg.widget_access_key.is_empty());
    assert!(matches!(
        cfg.validate(),
        Err(ConfigError::InvalidWidgetAccessKey)
    ));
}

#[test]
fn valid_config_accepted() {
    assert!(RuntimeConfig::test_runtime("secret").validate().is_ok());
}

fn apply_u64(cfg: &mut RuntimeConfig, field: &str, value: u64) {
    match field {
        "roulette.timeout_secs" => cfg.roulette.timeout_secs = value,
        "queue.retention_secs" => cfg.queue.retention_secs = value,
        "queue.cleanup_interval_secs" => cfg.queue.cleanup_interval_secs = value,
        "session.cleanup_interval_secs" => cfg.session.cleanup_interval_secs = value,
        "session.ttl_secs" => cfg.session.ttl_secs = value,
        _ => unreachable!(),
    }
}

#[test]
fn zero_values_rejected() {
    let base = RuntimeConfig::test_runtime("secret");
    for (field, value) in [
        ("roulette.timeout_secs", 0_u64),
        ("queue.retention_secs", 0_u64),
        ("queue.cleanup_interval_secs", 0_u64),
        ("session.cleanup_interval_secs", 0_u64),
        ("session.ttl_secs", 0_u64),
    ] {
        let mut cfg = base.clone();
        apply_u64(&mut cfg, field, value);
        assert!(
            matches!(
                cfg.validate(),
                Err(ConfigError::InvalidValue { field: actual }) if actual == field
            ),
            "expected InvalidValue for {field}"
        );
    }

    let mut cfg = base.clone();
    cfg.queue.default_limit = 0;
    assert!(matches!(
        cfg.validate(),
        Err(ConfigError::InvalidValue {
            field: "queue.default_limit"
        })
    ));
}

#[test]
fn validation_reports_key_before_values_and_first_zero_field() {
    let mut cfg = RuntimeConfig::default();
    cfg.queue.default_limit = 0;
    assert!(matches!(cfg.validate(), Err(ConfigError::InvalidWidgetAccessKey)));

    let mut cfg = RuntimeConfig::test_runtime("k");
    cfg.session.ttl_secs = 0;
    cfg.roulette.timeout_secs = 0;
    assert!(matches!(
        cfg.validate(),
        Err(ConfigError::InvalidValue { field: "session.ttl_secs" })
    ));
}

#[test]
fn defaults_match_documented_constants() {
    assert_eq!(QueueRuntimeConfig::default().default_limit, 20);
    assert_eq!(QueueRuntimeConfig::default().retention_secs, 24 * 60 * 60);
    assert_eq!(QueueRuntimeConfig::default().cleanup_interval_secs, 60 * 60);
    assert_eq!(SessionRuntimeConfig::default().ttl_secs, 24 * 60 * 60);
    assert_eq!(SessionRuntimeConfig::default().cleanup_interval_secs, 60 * 60);
    assert_eq!(RouletteRuntimeConfig::default().timeout_secs, 10);
}

fn twitch(client_id: &str, credentials_redirect_uri: &str, ttl: u64) -> Result<TwitchConfig, ConfigError> {
    TwitchConfig::build(
        client_id.to_string(),
        "secret".to_string(),
        "broadcaster".to_string(),
        "https://localhost/callback".to_string(),
        credentials_redirect_uri.to_string(),
        ttl,
    )
}

#[test]
fn missing_required_field_fails_validation() {
    let config = TwitchConfig::build(
        String::new(),
        "secret".to_string(),
        "broadcaster".to_string(),
        "https://localhost/callback".to_string(),
        "https://localhost/creds/callback".to_string(),
        600,
    );
    assert!(matches!(
        config,
        Err(ConfigError::MissingField { field: "client_id" })
    ));
}

#[test]
fn empty_credentials_redirect_uri_fails_validation() {
    let config = TwitchConfig::build(
        "client_id".to_string(),
        "secret".to_string(),
        "broadcaster".to_string(),
        "https://localhost/callback".to_string(),
        String::new(),
        600,
    );
    assert!(matches!(
        config,
        Err(ConfigError::MissingField {
            field: "credentials_redirect_uri"
        })
    ));
}

#[test]
fn zero_ttl_is_rejected() {
    let config = TwitchConfig::build(
        "client_id".to_string(),
        "client_secret".to_string(),
        "broadcaster_id".to_string(),
        "https://localhost/callback".to_string(),
        "https://localhost/creds/callback".to_string(),
        0,
    );
    assert!(matches!(config, Err(ConfigError::InvalidCsrfTtl)));
}

#[test]
fn valid_twitch_config_keeps_fields() {
    let config = twitch("cid", "https://localhost/creds/callback", 600).expect("valid");
    assert_eq!(config.client_id, "cid");
    assert_eq!(config.csrf_ttl_secs, 600);
    assert_eq!(config.credentials_redirect_uri, "https://localhost/creds/callback");
    assert!(matches!(twitch("", "", 0), Err(ConfigError::MissingField { field: "client_id" })));
}

#[test]
fn config_error_messages() {
    assert_eq!(
        ConfigError::MissingField { field: "client_id" }.message(),
        "twitch config field `client_id` is required"
    );
    assert_eq!(
        ConfigError::InvalidValue { field: "session.ttl_secs" }.message(),
        "runtime config field `session.ttl_secs` must be greater than zero"
    );
}

fn twitch_config(broadcaster_id: &str) -> TwitchConfig {
    TwitchConfig {
        client_id: "cid".to_string(),
        client_secret: "cs".to_string(),
        broadcaster_id: broadcaster_id.to_string(),
        redirect_uri: "https://localhost/cb".to_string(),
        credentials_redirect_uri: "https://localhost/creds/cb".to_string(),
        csrf_ttl_secs: 600,
    }
}

fn raw_config() -> RawConfig {
    RawConfig::default()
}

#[test]
fn split_separates_static_and_runtime() {
    let raw = RawConfig {
        port: 4321,
        cors_origins: normalize_cors_origins(CorsOrigins::List(vec![
            "https://a.com".to_string(),
            "https://b.com".to_string(),
        ])),
        cookie_secure: true,
        twitch: Some(Arc::new(twitch_config("bc"))),
        roulette_timeout_secs: 30,
        session_ttl_secs: 3600,
        ..raw_config()
    };

    let (static_cfg, seed) = StaticConfig::split(raw);

    assert_eq!(static_cfg.port, 4321);
    assert_eq!(
        static_cfg.cors_origins.as_deref().unwrap(),
        &["https://a.com", "https://b.com"]
    );
    assert!(static_cfg.cookie_secure);
    assert_eq!(static_cfg.twitch.as_deref().unwrap().broadcaster_id, "bc");

    let seed = seed.expect("seed present");
    assert_eq!(seed.roulette.timeout_secs, 30);
    assert_eq!(seed.session.ttl_secs, 3600);
    assert_eq!(seed.queue.retention_secs, RuntimeConfig::default().queue.retention_secs);
    assert!(seed.widget_access_key.is_empty());
}

#[test]
fn cors_origins_accepts_comma_string() {
    let raw = RawConfig {
        cors_origins: normalize_cors_origins(CorsOrigins::Comma(
            " https://a.com , https://b.com ,, ".to_string(),
        )),
        ..raw_config()
    };

    let (static_cfg, _) = StaticConfig::split(raw);

    assert_eq!(
        static_cfg.cors_origins.as_deref().unwrap(),
        &["https://a.com", "https://b.com"]
    );
}

#[test]
fn cors_origins_empty_or_null_is_none() {
    assert!(normalize_cors_origins(CorsOrigins::Null).is_none());
    assert!(normalize_cors_origins(CorsOrigins::Comma(" , ,".to_string())).is_none());
    assert!(normalize_cors_origins(CorsOrigins::List(vec!["  ".to_string()])).is_none());
    assert_eq!(
        normalize_cors_origins(CorsOrigins::List(vec![" x ".to_string(), "".to_string()])),
        Some(vec!["x".to_string()])
    );
}

#[test]
fn split_passes_twitch_through() {
    let raw = RawConfig {
        twitch: Some(Arc::new(twitch_config("bc"))),
        ..raw_config()
    };

    let (static_cfg, _) = StaticConfig::split(raw);

    let twitch = static_cfg.twitch.expect("twitch set");
    assert_eq!(twitch.client_id, "cid");
}

#[test]
fn flat_config_defaults_and_test_config() {
    let cfg = Config::default();
    assert_eq!(cfg.port, 3000);
    assert_eq!(cfg.roulette_timeout_secs, 10);
    assert!(!cfg.has_access_key());
    let t = Config::test_config();
    assert_eq!(t.access_key, "test-key");
    assert_eq!(t.roulette_timeout_secs, 0);
    assert!(t.has_access_key());
}

fn test_store() -> ConfigStore<InMemoryConfigRepository> {
    ConfigStore::new(
        StaticConfig::test_config(),
        RuntimeConfig::test_runtime("secret"),
        InMemoryConfigRepository::new(),
    )
}

#[test]
fn accessors_return_configured_values() {
    let store = test_store();
    assert_eq!(store.widget_access_key(), "secret");
    assert_eq!(store.queue_default_limit(), 20);
    assert_eq!(store.session_ttl_secs(), 24 * 60 * 60);
    assert_eq!(store.port(), 3000);
    assert!(!store.cookie_secure());
    assert_eq!(store.admin_twitch_id(), None);
    assert_eq!(store.cors_origins(), None);
    assert!(store.twitch().is_none());
    assert_eq!(store.roulette_timeout_secs(), 10);
    assert_eq!(store.retention_secs(), 24 * 60 * 60);
    assert_eq!(store.queue_cleanup_interval_secs(), 60 * 60);
    assert_eq!(store.sessions_cleanup_interval_secs(), 60 * 60);
}

#[test]
fn admin_twitch_id_comes_from_twitch_broadcaster_id() {
    let static_cfg = StaticConfig {
        port: 3000,
        cors_origins: None,
        cookie_secure: false,
        twitch: Some(Arc::new(twitch_config("42"))),
    };
    let store = ConfigStore::new(
        static_cfg,
        RuntimeConfig::test_runtime("secret"),
        InMemoryConfigRepository::new(),
    );
    assert_eq!(store.admin_twitch_id(), Some("42"));
}

#[test]
fn update_runtime_persists_and_is_visible() {
    let mut store = test_store();
    let mut next = RuntimeConfig::test_runtime("other");
    next.session.ttl_secs = 42;

    store.update_runtime(next.clone()).unwrap();

    assert_eq!(store.source().read().session.ttl_secs, 42);
    assert_eq!(store.widget_access_key(), "other");
    assert_eq!(store.repository().load().unwrap().unwrap(), next);
}

#[test]
fn update_runtime_invalid_not_applied() {
    let mut store = test_store();

    let err = store.update_runtime(RuntimeConfig::default()).unwrap_err();

    assert!(matches!(err, ConfigError::InvalidWidgetAccessKey));
    assert!(store.repository().load().unwrap().is_none());
    assert_eq!(store.widget_access_key(), "secret");
}

#[test]
fn rotate_access_key_changes_only_key() {
    let mut store = test_store();

    store.rotate_widget_access_key("rotated").unwrap();

    assert_eq!(store.source().read().widget_access_key, "rotated");
    assert_eq!(store.source().read().session.ttl_secs, 24 * 60 * 60);
    assert_eq!(store.source().read().queue.default_limit, 20);
    assert_eq!(
        store.repository().load().unwrap().unwrap().widget_access_key,
        "rotated"
    );
}

#[test]
fn rotate_access_key_empty_rejected() {
    let mut store = test_store();

    let err = store.rotate_widget_access_key("").unwrap_err();

    assert!(matches!(err, ConfigError::InvalidWidgetAccessKey));
    assert!(store.repository().load().unwrap().is_none());
    assert_eq!(store.widget_access_key(), "secret");
}

#[test]
fn shared_settings_snapshot_reads_back() {
    let settings = SharedSettings::test_new(RuntimeConfig::test_runtime("k"));
    assert_eq!(settings.read().widget_access_key, "k");
}

#[test]
fn load_on_empty_repo_is_none() {
    let repo = InMemoryConfigRepository::new();
    assert!(repo.load().unwrap().is_none());
}

#[test]
fn save_then_load_roundtrip() {
    let mut repo = InMemoryConfigRepository::new();
    let cfg = RuntimeConfig::test_runtime("test-key");

    repo.save(&cfg).unwrap();

    let loaded = repo.load().unwrap().unwrap();
    assert_eq!(loaded, cfg);
}

#[test]
fn save_overwrites_previous() {
    let mut repo = InMemoryConfigRepository::new();
    let first = RuntimeConfig::test_runtime("first");
    let second = RuntimeConfig::test_runtime("second");

    repo.save(&first).unwrap();
    repo.save(&second).unwrap();

    let loaded = repo.load().unwrap().unwrap();
    assert_eq!(loaded.widget_access_key, "second");
}

#[test]
fn load_or_seed_uses_seed_and_fresh_key() {
    let mut seed = RuntimeConfig::default();
    seed.session.ttl_secs = 7;
    let store = ConfigStore::load_or_seed(
        StaticConfig::test_config(),
        Some(seed),
        InMemoryConfigRepository::new(),
        "fresh".to_string(),
    )
    .expect("seeded");
    assert_eq!(store.widget_access_key(), "fresh");
    assert_eq!(store.session_ttl_secs(), 7);
    assert_eq!(store.repository().load().unwrap().unwrap().widget_access_key, "fresh");
}

#[test]
fn load_or_seed_keeps_persisted_settings() {
    let mut repo = InMemoryConfigRepository::new();
    repo.save(&RuntimeConfig::test_runtime("persisted")).unwrap();
    let store = ConfigStore::load_or_seed(StaticConfig::test_config(), None, repo, "fresh".to_string())
        .expect("loaded");
    assert_eq!(store.widget_access_key(), "persisted");
}
