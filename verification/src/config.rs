//! Configuration: the runtime settings an admin may change, the static
//! settings read once at start-up, the Twitch application settings, and
//! their validation.

use std::sync::Arc;

use vstd::prelude::*;

use crate::error::ConfigError;
use crate::text::{kept_trimmed, split_on, split_str, trim_nonempty, views_of};

verus! {

/// Page size of queue listings when none is asked for.
pub const QUEUE_DEFAULT_LIMIT: usize = 20;

/// How long finished queue entries are kept, in seconds.
pub const QUEUE_RETENTION_SECS: u64 = 86400;

/// How often finished queue entries are purged, in seconds.
pub const QUEUE_CLEANUP_INTERVAL_SECS: u64 = 3600;

/// Lifetime of a session, in seconds.
pub const SESSION_TTL_SECS: u64 = 86400;

/// How long a login ticket can be traded for a session, in seconds.
pub const LOGIN_TICKET_TTL_SECS: u64 = 600;

/// How often expired sessions are purged, in seconds.
pub const SESSION_CLEANUP_INTERVAL_SECS: u64 = 3600;

/// How long a spin may take before it counts as failed, in seconds.
pub const ROULETTE_TIMEOUT_SECS: u64 = 10;

/// Port the server listens on by default.
pub const DEFAULT_PORT: u16 = 3000;

/// Queue settings.
#[derive(Debug, Clone, Copy, PartialEq, Eq, Structural)]
pub struct QueueRuntimeConfig {
    pub default_limit: usize,
    pub retention_secs: u64,
    pub cleanup_interval_secs: u64,
}

impl Default for QueueRuntimeConfig {
    fn default() -> (r: Self)
        ensures
            r.default_limit == QUEUE_DEFAULT_LIMIT,
            r.retention_secs == QUEUE_RETENTION_SECS,
            r.cleanup_interval_secs == QUEUE_CLEANUP_INTERVAL_SECS,
    {
        QueueRuntimeConfig {
            default_limit: QUEUE_DEFAULT_LIMIT,
            retention_secs: QUEUE_RETENTION_SECS,
            cleanup_interval_secs: QUEUE_CLEANUP_INTERVAL_SECS,
        }
    }
}

/// Session settings.
#[derive(Debug, Clone, Copy, PartialEq, Eq, Structural)]
pub struct SessionRuntimeConfig {
    pub ttl_secs: u64,
    pub cleanup_interval_secs: u64,
}

impl Default for SessionRuntimeConfig {
    fn default() -> (r: Self)
        ensures
            r.ttl_secs == SESSION_TTL_SECS,
            r.cleanup_interval_secs == SESSION_CLEANUP_INTERVAL_SECS,
    {
        SessionRuntimeConfig {
            ttl_secs: SESSION_TTL_SECS,
            cleanup_interval_secs: SESSION_CLEANUP_INTERVAL_SECS,
        }
    }
}

/// Roulette settings.
#[derive(Debug, Clone, Copy, PartialEq, Eq, Structural)]
pub struct RouletteRuntimeConfig {
    pub timeout_secs: u64,
}

impl Default for RouletteRuntimeConfig {
    fn default() -> (r: Self)
        ensures
            r.timeout_secs == ROULETTE_TIMEOUT_SECS,
    {
        RouletteRuntimeConfig { timeout_secs: ROULETTE_TIMEOUT_SECS }
    }
}

/// The settings an admin may change while the server runs.
#[derive(Debug, PartialEq, Eq)]
pub struct RuntimeConfig {
    pub widget_access_key: String,
    pub queue: QueueRuntimeConfig,
    pub session: SessionRuntimeConfig,
    pub roulette: RouletteRuntimeConfig,
}

impl Clone for RuntimeConfig {
    fn clone(&self) -> (r: Self)
        ensures
            r == *self,
    {
        RuntimeConfig {
            widget_access_key: self.widget_access_key.clone(),
            queue: self.queue,
            session: self.session,
            roulette: self.roulette,
        }
    }
}

/// Whether the sections hold their default values.
pub open spec fn default_sections(c: RuntimeConfig) -> bool {
    &&& c.queue.default_limit == QUEUE_DEFAULT_LIMIT
    &&& c.queue.retention_secs == QUEUE_RETENTION_SECS
    &&& c.queue.cleanup_interval_secs == QUEUE_CLEANUP_INTERVAL_SECS
    &&& c.session.ttl_secs == SESSION_TTL_SECS
    &&& c.session.cleanup_interval_secs == SESSION_CLEANUP_INTERVAL_SECS
    &&& c.roulette.timeout_secs == ROULETTE_TIMEOUT_SECS
}

impl Default for RuntimeConfig {
    fn default() -> (r: Self)
        ensures
            r.widget_access_key@ == Seq::<char>::empty(),
            default_sections(r),
    {
        RuntimeConfig {
            widget_access_key: String::new(),
            queue: QueueRuntimeConfig::default(),
            session: SessionRuntimeConfig::default(),
            roulette: RouletteRuntimeConfig::default(),
        }
    }
}

/// The first numeric setting, in the order the checks run, that is zero.
pub open spec fn first_zero_field(c: RuntimeConfig) -> Option<Seq<char>> {
    if c.queue.default_limit == 0 {
        Some("queue.default_limit"@)
    } else if c.queue.retention_secs == 0 {
        Some("queue.retention_secs"@)
    } else if c.queue.cleanup_interval_secs == 0 {
        Some("queue.cleanup_interval_secs"@)
    } else if c.session.ttl_secs == 0 {
        Some("session.ttl_secs"@)
    } else if c.session.cleanup_interval_secs == 0 {
        Some("session.cleanup_interval_secs"@)
    } else if c.roulette.timeout_secs == 0 {
        Some("roulette.timeout_secs"@)
    } else {
        None
    }
}

/// A runtime configuration is valid when it has an access key and no
/// numeric setting is zero.
pub open spec fn runtime_valid(c: RuntimeConfig) -> bool {
    c.widget_access_key@.len() > 0 && first_zero_field(c) is None
}

/// The error validation reports for an invalid configuration: a missing
/// key first, then the first zero setting.
pub open spec fn validation_error(c: RuntimeConfig, e: ConfigError) -> bool {
    match e {
        ConfigError::InvalidWidgetAccessKey => c.widget_access_key@.len() == 0,
        ConfigError::InvalidValue { field } => c.widget_access_key@.len() > 0 && first_zero_field(
            c,
        ) == Some(field@),
        _ => false,
    }
}

impl RuntimeConfig {
    /// Checks the access key, then each numeric setting in turn.
    pub fn validate(&self) -> (r: Result<(), ConfigError>)
        ensures
            match r {
                Ok(()) => runtime_valid(*self),
                Err(e) => validation_error(*self, e),
            },
    {
        if self.widget_access_key.as_str().is_empty() {
            return Err(ConfigError::InvalidWidgetAccessKey);
        }
        if self.queue.default_limit == 0 {
            return Err(ConfigError::InvalidValue { field: "queue.default_limit" });
        }
        if self.queue.retention_secs == 0 {
            return Err(ConfigError::InvalidValue { field: "queue.retention_secs" });
        }
        if self.queue.cleanup_interval_secs == 0 {
            return Err(ConfigError::InvalidValue { field: "queue.cleanup_interval_secs" });
        }
        if self.session.ttl_secs == 0 {
            return Err(ConfigError::InvalidValue { field: "session.ttl_secs" });
        }
        if self.session.cleanup_interval_secs == 0 {
            return Err(ConfigError::InvalidValue { field: "session.cleanup_interval_secs" });
        }
        if self.roulette.timeout_secs == 0 {
            return Err(ConfigError::InvalidValue { field: "roulette.timeout_secs" });
        }
        Ok(())
    }

    /// Default settings with the given access key.
    pub fn test_runtime(widget_access_key: &str) -> (r: Self)
        ensures
            r.widget_access_key@ == widget_access_key@,
            default_sections(r),
    {
        RuntimeConfig {
            widget_access_key: widget_access_key.to_owned(),
            queue: QueueRuntimeConfig::default(),
            session: SessionRuntimeConfig::default(),
            roulette: RouletteRuntimeConfig::default(),
        }
    }
}

/// A validation outcome names one error, and never one for a valid
/// configuration: the valid and the rejected configurations are apart.
pub proof fn lemma_validation_exclusive(c: RuntimeConfig, e: ConfigError)
    requires
        validation_error(c, e),
    ensures
        !runtime_valid(c),
{
}

/// The Twitch application settings.
#[derive(Debug)]
pub struct TwitchConfig {
    pub client_id: String,
    pub client_secret: String,
    pub broadcaster_id: String,
    pub redirect_uri: String,
    pub credentials_redirect_uri: String,
    pub csrf_ttl_secs: u64,
}

impl Clone for TwitchConfig {
    fn clone(&self) -> (r: Self)
        ensures
            r == *self,
    {
        TwitchConfig {
            client_id: self.client_id.clone(),
            client_secret: self.client_secret.clone(),
            broadcaster_id: self.broadcaster_id.clone(),
            redirect_uri: self.redirect_uri.clone(),
            credentials_redirect_uri: self.credentials_redirect_uri.clone(),
            csrf_ttl_secs: self.csrf_ttl_secs,
        }
    }
}

/// The first required Twitch setting, in declaration order, that is empty.
pub open spec fn first_missing(
    client_id: Seq<char>,
    client_secret: Seq<char>,
    broadcaster_id: Seq<char>,
    redirect_uri: Seq<char>,
    credentials_redirect_uri: Seq<char>,
) -> Option<Seq<char>> {
    if client_id.len() == 0 {
        Some("client_id"@)
    } else if client_secret.len() == 0 {
        Some("client_secret"@)
    } else if broadcaster_id.len() == 0 {
        Some("broadcaster_id"@)
    } else if redirect_uri.len() == 0 {
        Some("redirect_uri"@)
    } else if credentials_redirect_uri.len() == 0 {
        Some("credentials_redirect_uri"@)
    } else {
        None
    }
}

impl TwitchConfig {
    /// Builds the settings, refusing an empty required field (the first in
    /// declaration order) and then a zero CSRF ticket lifetime.
    pub fn build(
        client_id: String,
        client_secret: String,
        broadcaster_id: String,
        redirect_uri: String,
        credentials_redirect_uri: String,
        csrf_ttl_secs: u64,
    ) -> (r: Result<Self, ConfigError>)
        ensures
            ({
                let missing = first_missing(
                    client_id@,
                    client_secret@,
                    broadcaster_id@,
                    redirect_uri@,
                    credentials_redirect_uri@,
                );
                match r {
                    Ok(c) => {
                        &&& missing is None
                        &&& csrf_ttl_secs != 0
                        &&& c == (TwitchConfig {
                            client_id,
                            client_secret,
                            broadcaster_id,
                            redirect_uri,
                            credentials_redirect_uri,
                            csrf_ttl_secs,
                        })
                    },
                    Err(ConfigError::MissingField { field }) => missing == Some(field@),
                    Err(ConfigError::InvalidCsrfTtl) => missing is None && csrf_ttl_secs == 0,
                    Err(_) => false,
                }
            }),
    {
        if client_id.as_str().is_empty() {
            return Err(ConfigError::MissingField { field: "client_id" });
        }
        if client_secret.as_str().is_empty() {
            return Err(ConfigError::MissingField { field: "client_secret" });
        }
        if broadcaster_id.as_str().is_empty() {
            return Err(ConfigError::MissingField { field: "broadcaster_id" });
        }
        if redirect_uri.as_str().is_empty() {
            return Err(ConfigError::MissingField { field: "redirect_uri" });
        }
        if credentials_redirect_uri.as_str().is_empty() {
            return Err(ConfigError::MissingField { field: "credentials_redirect_uri" });
        }
        if csrf_ttl_secs == 0 {
            return Err(ConfigError::InvalidCsrfTtl);
        }
        Ok(
            TwitchConfig {
                client_id,
                client_secret,
                broadcaster_id,
                redirect_uri,
                credentials_redirect_uri,
                csrf_ttl_secs,
            },
        )
    }
}

/// The allowed CORS origins as the configuration source wrote them: a
/// list, one comma-separated string, or nothing.
#[derive(Debug)]
pub enum CorsOrigins {
    List(Vec<String>),
    Comma(String),
    Null,
}

/// The origins a configuration value stands for, trimmed, without empty
/// ones; `None` when it is absent or leaves no origin.
pub open spec fn cors_origins_of(raw: CorsOrigins) -> Option<Seq<Seq<char>>> {
    let kept = match raw {
        CorsOrigins::List(l) => kept_trimmed(views_of(l@)),
        CorsOrigins::Comma(s) => kept_trimmed(split_on(s@, ',')),
        CorsOrigins::Null => Seq::empty(),
    };
    if kept.len() == 0 {
        None
    } else {
        Some(kept)
    }
}

/// Normalises a CORS origins value: trims each origin, drops the empty
/// ones, and yields `None` when nothing is left.
pub fn normalize_cors_origins(raw: CorsOrigins) -> (r: Option<Vec<String>>)
    ensures
        match r {
            Some(v) => cors_origins_of(raw) == Some(views_of(v@)),
            None => cors_origins_of(raw) is None,
        },
{
    let trimmed = match raw {
        CorsOrigins::List(list) => trim_nonempty(&list),
        CorsOrigins::Comma(s) => {
            let parts = split_str(s.as_str(), ',');
            trim_nonempty(&parts)
        },
        CorsOrigins::Null => {
            return None;
        },
    };
    if trimmed.len() == 0 {
        None
    } else {
        Some(trimmed)
    }
}

/// The settings fixed for the lifetime of the process.
pub struct StaticConfig {
    pub port: u16,
    pub cors_origins: Option<Vec<String>>,
    pub cookie_secure: bool,
    pub twitch: Option<Arc<TwitchConfig>>,
}

impl Default for StaticConfig {
    fn default() -> (r: Self)
        ensures
            r.port == DEFAULT_PORT,
            r.cors_origins is None,
            !r.cookie_secure,
            r.twitch is None,
    {
        StaticConfig { port: DEFAULT_PORT, cors_origins: None, cookie_secure: false, twitch: None }
    }
}

/// Everything a configuration source holds, static and runtime settings
/// together, as one flat record.
pub struct RawConfig {
    pub roulette_timeout_secs: u64,
    pub retention_secs: u64,
    pub queue_cleanup_interval_secs: u64,
    pub sessions_cleanup_interval_secs: u64,
    pub queue_default_limit: usize,
    pub port: u16,
    pub cors_origins: Option<Vec<String>>,
    pub twitch: Option<Arc<TwitchConfig>>,
    pub session_ttl_secs: u64,
    pub cookie_secure: bool,
}

impl Default for RawConfig {
    fn default() -> (r: Self)
        ensures
            r.roulette_timeout_secs == ROULETTE_TIMEOUT_SECS,
            r.retention_secs == QUEUE_RETENTION_SECS,
            r.queue_cleanup_interval_secs == QUEUE_CLEANUP_INTERVAL_SECS,
            r.sessions_cleanup_interval_secs == SESSION_CLEANUP_INTERVAL_SECS,
            r.queue_default_limit == QUEUE_DEFAULT_LIMIT,
            r.session_ttl_secs == SESSION_TTL_SECS,
            r.port == DEFAULT_PORT,
            r.cors_origins is None,
            r.twitch is None,
            !r.cookie_secure,
    {
        let runtime = RuntimeConfig::default();
        let static_cfg = StaticConfig::default();
        RawConfig {
            roulette_timeout_secs: runtime.roulette.timeout_secs,
            retention_secs: runtime.queue.retention_secs,
            queue_cleanup_interval_secs: runtime.queue.cleanup_interval_secs,
            sessions_cleanup_interval_secs: runtime.session.cleanup_interval_secs,
            queue_default_limit: runtime.queue.default_limit,
            session_ttl_secs: runtime.session.ttl_secs,
            port: static_cfg.port,
            cors_origins: static_cfg.cors_origins,
            twitch: static_cfg.twitch,
            cookie_secure: static_cfg.cookie_secure,
        }
    }
}

impl StaticConfig {
    /// Separates a flat configuration into the static settings and the
    /// runtime seed; the seed has no access key yet.
    pub fn split(raw: RawConfig) -> (r: (Self, Option<RuntimeConfig>))
        ensures
            r.0.port == raw.port,
            r.0.cors_origins == raw.cors_origins,
            r.0.cookie_secure == raw.cookie_secure,
            r.0.twitch == raw.twitch,
            r.1 matches Some(seed) && {
                &&& seed.widget_access_key@ == Seq::<char>::empty()
                &&& seed.queue.default_limit == raw.queue_default_limit
                &&& seed.queue.retention_secs == raw.retention_secs
                &&& seed.queue.cleanup_interval_secs == raw.queue_cleanup_interval_secs
                &&& seed.session.ttl_secs == raw.session_ttl_secs
                &&& seed.session.cleanup_interval_secs == raw.sessions_cleanup_interval_secs
                &&& seed.roulette.timeout_secs == raw.roulette_timeout_secs
            },
    {
        let static_cfg = StaticConfig {
            port: raw.port,
            cors_origins: raw.cors_origins,
            cookie_secure: raw.cookie_secure,
            twitch: raw.twitch,
        };
        let seed = RuntimeConfig {
            widget_access_key: String::new(),
            queue: QueueRuntimeConfig {
                default_limit: raw.queue_default_limit,
                retention_secs: raw.retention_secs,
                cleanup_interval_secs: raw.queue_cleanup_interval_secs,
            },
            session: SessionRuntimeConfig {
                ttl_secs: raw.session_ttl_secs,
                cleanup_interval_secs: raw.sessions_cleanup_interval_secs,
            },
            roulette: RouletteRuntimeConfig { timeout_secs: raw.roulette_timeout_secs },
        };
        (static_cfg, Some(seed))
    }

    /// The default static settings.
    pub fn test_config() -> (r: Self)
        ensures
            r.port == DEFAULT_PORT,
            r.cors_origins is None,
            !r.cookie_secure,
            r.twitch is None,
    {
        StaticConfig::default()
    }
}

/// The flat, single-record configuration of the server.
pub struct Config {
    pub roulette_timeout_secs: u64,
    pub retention_secs: u64,
    pub queue_cleanup_interval_secs: u64,
    pub sessions_cleanup_interval_secs: u64,
    pub queue_default_limit: usize,
    pub port: u16,
    pub access_key: String,
    pub cors_origins: Option<Vec<String>>,
    pub twitch: Option<Arc<TwitchConfig>>,
    pub admin_twitch_id: Option<String>,
    pub session_ttl_secs: u64,
    pub cookie_secure: bool,
}

impl Default for Config {
    fn default() -> (r: Self)
        ensures
            r.roulette_timeout_secs == ROULETTE_TIMEOUT_SECS,
            r.retention_secs == QUEUE_RETENTION_SECS,
            r.queue_cleanup_interval_secs == QUEUE_CLEANUP_INTERVAL_SECS,
            r.sessions_cleanup_interval_secs == SESSION_CLEANUP_INTERVAL_SECS,
            r.queue_default_limit == QUEUE_DEFAULT_LIMIT,
            r.port == DEFAULT_PORT,
            r.access_key@ == Seq::<char>::empty(),
            r.cors_origins is None,
            r.twitch is None,
            r.admin_twitch_id is None,
            r.session_ttl_secs == SESSION_TTL_SECS,
            !r.cookie_secure,
    {
        Config {
            roulette_timeout_secs: ROULETTE_TIMEOUT_SECS,
            retention_secs: QUEUE_RETENTION_SECS,
            queue_cleanup_interval_secs: QUEUE_CLEANUP_INTERVAL_SECS,
            sessions_cleanup_interval_secs: SESSION_CLEANUP_INTERVAL_SECS,
            queue_default_limit: QUEUE_DEFAULT_LIMIT,
            port: DEFAULT_PORT,
            access_key: String::new(),
            cors_origins: None,
            twitch: None,
            admin_twitch_id: None,
            session_ttl_secs: SESSION_TTL_SECS,
            cookie_secure: false,
        }
    }
}

impl Config {
    /// A configuration for tests: spins never time out on their own
    /// (timeout zero) and the access key is `test-key`.
    pub fn test_config() -> (r: Self)
        ensures
            r.roulette_timeout_secs == 0,
            r.retention_secs == QUEUE_RETENTION_SECS,
            r.queue_cleanup_interval_secs == QUEUE_CLEANUP_INTERVAL_SECS,
            r.sessions_cleanup_interval_secs == SESSION_CLEANUP_INTERVAL_SECS,
            r.queue_default_limit == QUEUE_DEFAULT_LIMIT,
            r.port == DEFAULT_PORT,
            r.access_key@ == "test-key"@,
            r.cors_origins is None,
            r.twitch is None,
            r.admin_twitch_id is None,
            r.session_ttl_secs == SESSION_TTL_SECS,
            !r.cookie_secure,
    {
        Config {
            roulette_timeout_secs: 0,
            retention_secs: QUEUE_RETENTION_SECS,
            queue_cleanup_interval_secs: QUEUE_CLEANUP_INTERVAL_SECS,
            sessions_cleanup_interval_secs: SESSION_CLEANUP_INTERVAL_SECS,
            queue_default_limit: QUEUE_DEFAULT_LIMIT,
            port: DEFAULT_PORT,
            access_key: String::from_str("test-key"),
            cors_origins: None,
            twitch: None,
            admin_twitch_id: None,
            session_ttl_secs: SESSION_TTL_SECS,
            cookie_secure: false,
        }
    }

    /// Whether the flat configuration carries an access key, which the
    /// server needs before it can start.
    pub fn has_access_key(&self) -> (r: bool)
        ensures
            r == (self.access_key@.len() > 0),
    {
        !self.access_key.as_str().is_empty()
    }
}

} // verus!
