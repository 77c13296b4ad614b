//! The configuration store: the static settings, the current runtime
//! settings, and the repository that persists the latter.

use vstd::prelude::*;

use crate::config::{
    default_sections, first_zero_field, runtime_valid, validation_error, RuntimeConfig,
    StaticConfig, TwitchConfig,
};
use crate::error::{ConfigError, RepositoryError};
use crate::random::{generate_secret, is_hex_text};

verus! {

/// Persistence of the runtime configuration.
pub trait ConfigRepository {
    /// The configuration the repository holds, if any.
    spec fn stored(&self) -> Option<RuntimeConfig>;

    /// Whether the repository takes every read and write (an in-memory
    /// one always does); where it does, no call fails.
    spec fn accepts(&self) -> bool;

    /// Reads the stored configuration.
    fn load(&self) -> (r: Result<Option<RuntimeConfig>, RepositoryError>)
        ensures
            self.accepts() ==> r is Ok,
            r matches Ok(v) ==> v == self.stored(),
    ;

    /// Replaces the stored configuration; on failure nothing changes.
    fn save(&mut self, config: &RuntimeConfig) -> (r: Result<(), RepositoryError>)
        ensures
            old(self).accepts() ==> r is Ok,
            final(self).accepts() == old(self).accepts(),
            r is Ok ==> final(self).stored() == Some(*config),
            r is Err ==> final(self).stored() == old(self).stored(),
    ;
}

/// A configuration repository in memory.
pub struct InMemoryConfigRepository {
    config: Option<RuntimeConfig>,
}

impl InMemoryConfigRepository {
    pub fn new() -> (r: Self)
        ensures
            r.stored() is None,
    {
        InMemoryConfigRepository { config: None }
    }
}

impl ConfigRepository for InMemoryConfigRepository {
    closed spec fn stored(&self) -> Option<RuntimeConfig> {
        self.config
    }

    open spec fn accepts(&self) -> bool {
        true
    }

    fn load(&self) -> (r: Result<Option<RuntimeConfig>, RepositoryError>)
        ensures
            r == Ok::<Option<RuntimeConfig>, RepositoryError>(self.stored()),
    {
        match &self.config {
            Some(c) => Ok(Some(c.clone())),
            None => Ok(None),
        }
    }

    fn save(&mut self, config: &RuntimeConfig) -> (r: Result<(), RepositoryError>)
        ensures
            r is Ok,
    {
        self.config = Some(config.clone());
        Ok(())
    }
}

/// The cell holding the runtime settings in force. The store owns it and
/// every update writes into it; readers borrow it from the store, so what
/// they read is always the store's current settings.
pub struct SharedSettings {
    runtime: RuntimeConfig,
}

impl SharedSettings {
    /// The settings the cell holds.
    pub closed spec fn settings(&self) -> RuntimeConfig {
        self.runtime
    }

    pub fn read(&self) -> (r: &RuntimeConfig)
        ensures
            *r == self.settings(),
    {
        &self.runtime
    }

    pub fn test_new(runtime: RuntimeConfig) -> (r: Self)
        ensures
            r.settings() == runtime,
    {
        SharedSettings { runtime }
    }
}

/// The static settings, the current runtime settings and their repository.
pub struct ConfigStore<R: ConfigRepository> {
    static_cfg: StaticConfig,
    runtime_cfg: SharedSettings,
    repo: R,
}

impl<R: ConfigRepository> ConfigStore<R> {
    /// The static settings.
    pub closed spec fn static_config(&self) -> StaticConfig {
        self.static_cfg
    }

    /// The runtime settings in force.
    pub closed spec fn runtime(&self) -> RuntimeConfig {
        self.runtime_cfg.runtime
    }

    /// The repository.
    pub closed spec fn repo(&self) -> R {
        self.repo
    }

    pub fn new(static_cfg: StaticConfig, runtime_cfg: RuntimeConfig, repo: R) -> (r: Self)
        ensures
            r.static_config() == static_cfg,
            r.runtime() == runtime_cfg,
            r.repo() == repo,
    {
        ConfigStore { static_cfg, runtime_cfg: SharedSettings { runtime: runtime_cfg }, repo }
    }

    /// The repository, for reading what it stores.
    pub fn repository(&self) -> (r: &R)
        ensures
            *r == self.repo(),
    {
        &self.repo
    }

    /// The store's own settings cell: reading it gives the settings in
    /// force, as every successful update and key rotation has left them.
    pub fn source(&self) -> (r: &SharedSettings)
        ensures
            r.settings() == self.runtime(),
    {
        &self.runtime_cfg
    }

    pub fn widget_access_key(&self) -> (r: String)
        ensures
            r@ == self.runtime().widget_access_key@,
    {
        self.runtime_cfg.runtime.widget_access_key.clone()
    }

    pub fn queue_default_limit(&self) -> (r: usize)
        ensures
            r == self.runtime().queue.default_limit,
    {
        self.runtime_cfg.runtime.queue.default_limit
    }

    pub fn session_ttl_secs(&self) -> (r: u64)
        ensures
            r == self.runtime().session.ttl_secs,
    {
        self.runtime_cfg.runtime.session.ttl_secs
    }

    pub fn roulette_timeout_secs(&self) -> (r: u64)
        ensures
            r == self.runtime().roulette.timeout_secs,
    {
        self.runtime_cfg.runtime.roulette.timeout_secs
    }

    pub fn retention_secs(&self) -> (r: u64)
        ensures
            r == self.runtime().queue.retention_secs,
    {
        self.runtime_cfg.runtime.queue.retention_secs
    }

    pub fn queue_cleanup_interval_secs(&self) -> (r: u64)
        ensures
            r == self.runtime().queue.cleanup_interval_secs,
    {
        self.runtime_cfg.runtime.queue.cleanup_interval_secs
    }

    pub fn sessions_cleanup_interval_secs(&self) -> (r: u64)
        ensures
            r == self.runtime().session.cleanup_interval_secs,
    {
        self.runtime_cfg.runtime.session.cleanup_interval_secs
    }

    pub fn port(&self) -> (r: u16)
        ensures
            r == self.static_config().port,
    {
        self.static_cfg.port
    }

    pub fn cookie_secure(&self) -> (r: bool)
        ensures
            r == self.static_config().cookie_secure,
    {
        self.static_cfg.cookie_secure
    }

    /// The Twitch id of the root admin: the broadcaster of the Twitch
    /// settings, when there are any.
    pub fn admin_twitch_id(&self) -> (r: Option<&str>)
        ensures
            match self.static_config().twitch {
                Some(t) => r matches Some(id) && id@ == t.broadcaster_id@,
                None => r is None,
            },
    {
        match &self.static_cfg.twitch {
            Some(t) => Some(t.broadcaster_id.as_str()),
            None => None,
        }
    }

    pub fn cors_origins(&self) -> (r: Option<&[String]>)
        ensures
            match self.static_config().cors_origins {
                Some(v) => r matches Some(s) && s@ == v@,
                None => r is None,
            },
    {
        match &self.static_cfg.cors_origins {
            Some(v) => Some(v.as_slice()),
            None => None,
        }
    }

    pub fn twitch(&self) -> (r: Option<&TwitchConfig>)
        ensures
            match self.static_config().twitch {
                Some(t) => r matches Some(c) && *c == *t,
                None => r is None,
            },
    {
        match &self.static_cfg.twitch {
            Some(t) => Some(&**t),
            None => None,
        }
    }

    /// Validates `next`, persists it and puts it in force. A configuration
    /// that fails validation, or that the repository refuses, changes
    /// nothing.
    pub fn update_runtime(&mut self, next: RuntimeConfig) -> (r: Result<(), ConfigError>)
        ensures
            final(self).static_config() == old(self).static_config(),
            final(self).repo().accepts() == old(self).repo().accepts(),
            runtime_valid(next) && old(self).repo().accepts() ==> r is Ok,
            match r {
                Ok(()) => {
                    &&& runtime_valid(next)
                    &&& final(self).runtime() == next
                    &&& final(self).repo().stored() == Some(next)
                },
                Err(ConfigError::Repo(_)) => {
                    &&& runtime_valid(next)
                    &&& final(self).runtime() == old(self).runtime()
                    &&& final(self).repo().stored() == old(self).repo().stored()
                },
                Err(e) => {
                    &&& validation_error(next, e)
                    &&& final(self).runtime() == old(self).runtime()
                    &&& final(self).repo() == old(self).repo()
                },
            },
    {
        match next.validate() {
            Ok(()) => {},
            Err(e) => {
                return Err(e);
            },
        }
        match self.repo.save(&next) {
            Ok(()) => {},
            Err(e) => {
                return Err(ConfigError::Repo(e));
            },
        }
        self.runtime_cfg.runtime = next;
        Ok(())
    }

    /// Replaces the access key, keeping every other setting; the new
    /// configuration is validated and persisted before it is put in force.
    pub fn rotate_widget_access_key(&mut self, key: &str) -> (r: Result<(), ConfigError>)
        ensures
            final(self).static_config() == old(self).static_config(),
            final(self).repo().accepts() == old(self).repo().accepts(),
            key@.len() > 0 && first_zero_field(old(self).runtime()) is None && old(
                self,
            ).repo().accepts() ==> r is Ok,
            match r {
                Ok(()) => {
                    &&& key@.len() > 0
                    &&& first_zero_field(old(self).runtime()) is None
                    &&& final(self).runtime().widget_access_key@ == key@
                    &&& final(self).runtime().queue == old(self).runtime().queue
                    &&& final(self).runtime().session == old(self).runtime().session
                    &&& final(self).runtime().roulette == old(self).runtime().roulette
                    &&& final(self).repo().stored() == Some(final(self).runtime())
                },
                Err(ConfigError::Repo(_)) => {
                    &&& key@.len() > 0
                    &&& first_zero_field(old(self).runtime()) is None
                    &&& final(self).runtime() == old(self).runtime()
                    &&& final(self).repo().stored() == old(self).repo().stored()
                },
                Err(ConfigError::InvalidWidgetAccessKey) => {
                    &&& key@.len() == 0
                    &&& final(self).runtime() == old(self).runtime()
                    &&& final(self).repo() == old(self).repo()
                },
                Err(ConfigError::InvalidValue { field }) => {
                    &&& key@.len() > 0
                    &&& first_zero_field(old(self).runtime()) == Some(field@)
                    &&& final(self).runtime() == old(self).runtime()
                    &&& final(self).repo() == old(self).repo()
                },
                Err(_) => false,
            },
    {
        let mut next = self.runtime_cfg.runtime.clone();
        next.widget_access_key = key.to_owned();
        match next.validate() {
            Ok(()) => {},
            Err(e) => {
                return Err(e);
            },
        }
        match self.repo.save(&next) {
            Ok(()) => {},
            Err(e) => {
                return Err(ConfigError::Repo(e));
            },
        }
        self.runtime_cfg.runtime = next;
        Ok(())
    }

    /// Replaces the access key with a freshly generated secret (as
    /// `rotate_widget_access_key`) and returns it.
    pub fn rotate_widget_access_key_generated(&mut self) -> (r: Result<String, ConfigError>)
        ensures
            final(self).static_config() == old(self).static_config(),
            final(self).repo().accepts() == old(self).repo().accepts(),
            first_zero_field(old(self).runtime()) is None && old(self).repo().accepts() ==> r is Ok,
            match r {
                Ok(key) => {
                    &&& key@.len() == 32
                    &&& is_hex_text(key@)
                    &&& first_zero_field(old(self).runtime()) is None
                    &&& final(self).runtime().widget_access_key@ == key@
                    &&& final(self).runtime().queue == old(self).runtime().queue
                    &&& final(self).runtime().session == old(self).runtime().session
                    &&& final(self).runtime().roulette == old(self).runtime().roulette
                    &&& final(self).repo().stored() == Some(final(self).runtime())
                },
                Err(ConfigError::Repo(_)) => {
                    &&& first_zero_field(old(self).runtime()) is None
                    &&& final(self).runtime() == old(self).runtime()
                    &&& final(self).repo().stored() == old(self).repo().stored()
                },
                Err(ConfigError::InvalidValue { field }) => {
                    &&& first_zero_field(old(self).runtime()) == Some(field@)
                    &&& final(self).runtime() == old(self).runtime()
                    &&& final(self).repo() == old(self).repo()
                },
                Err(_) => false,
            },
    {
        let key = generate_secret();
        match self.rotate_widget_access_key(&key) {
            Ok(()) => Ok(key),
            Err(e) => Err(e),
        }
    }
}

/// The sections a seed gives the runtime settings: those of the seed read
/// from the configuration source, or the defaults.
pub open spec fn seeded_sections(seed: Option<RuntimeConfig>, c: RuntimeConfig) -> bool {
    match seed {
        Some(s) => c.queue == s.queue && c.session == s.session && c.roulette == s.roulette,
        None => default_sections(c),
    }
}

impl<R: ConfigRepository> ConfigStore<R> {
    /// The store over `repo`: the runtime settings it holds, or, when it
    /// holds none yet, the seed (or the defaults) with `fresh_key` as the
    /// access key, persisted first.
    pub fn load_or_seed(
        static_cfg: StaticConfig,
        file_seed: Option<RuntimeConfig>,
        repo: R,
        fresh_key: String,
    ) -> (r: Result<Self, ConfigError>)
        ensures
            repo.accepts() ==> r is Ok,
            r matches Ok(st) ==> st.static_config() == static_cfg && st.repo().accepts()
                == repo.accepts(),
            repo.stored() matches Some(c) ==> match r {
                Ok(st) => st.runtime() == c && st.repo() == repo,
                Err(e) => e is Repo,
            },
            repo.stored() is None ==> match r {
                Ok(st) => {
                    &&& st.runtime().widget_access_key@ == fresh_key@
                    &&& seeded_sections(file_seed, st.runtime())
                    &&& st.repo().stored() == Some(st.runtime())
                },
                Err(e) => e is Repo,
            },
    {
        let mut repo = repo;
        let loaded = match repo.load() {
            Ok(v) => v,
            Err(e) => {
                return Err(ConfigError::Repo(e));
            },
        };
        let runtime = match loaded {
            Some(runtime) => runtime,
            None => {
                let mut seed = match file_seed {
                    Some(s) => s,
                    None => RuntimeConfig::default(),
                };
                seed.widget_access_key = fresh_key;
                match repo.save(&seed) {
                    Ok(()) => {},
                    Err(e) => {
                        return Err(ConfigError::Repo(e));
                    },
                }
                seed
            },
        };
        Ok(ConfigStore::new(static_cfg, runtime, repo))
    }
}

} // verus!
