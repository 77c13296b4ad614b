//! Stored platform credentials (refresh tokens of the bot accounts).

use std::collections::HashMap;

use vstd::prelude::*;

use crate::error::RepositoryError;
use crate::ids::PlatformId;
use crate::text::{trim, trim_str};

verus! {

/// Persistence of one credential per platform.
pub trait PlatformCredentialRepository {
    /// The credential text stored for each platform, by platform number.
    spec fn credentials(&self) -> Map<u32, Seq<char>>;

    /// Whether the store takes every read and write (an in-memory store
    /// always does); where it does, no call fails.
    spec fn accepts(&self) -> bool;

    fn load_credential(&self, platform: PlatformId) -> (r: Result<Option<String>, RepositoryError>)
        ensures
            self.accepts() ==> r is Ok,
            r matches Ok(v) ==> match v {
                Some(c) => self.credentials().contains_key(platform.0)
                    && self.credentials()[platform.0] == c@,
                None => !self.credentials().contains_key(platform.0),
            },
    ;

    /// Stores a credential for the platform, trimmed; the others are
    /// untouched.
    fn save_credential(&mut self, platform: PlatformId, credential: &str) -> (r: Result<
        (),
        RepositoryError,
    >)
        ensures
            old(self).accepts() ==> r is Ok,
            final(self).accepts() == old(self).accepts(),
            r is Ok ==> final(self).credentials() == old(self).credentials().insert(
                platform.0,
                trim(credential@),
            ),
            r is Err ==> final(self).credentials() == old(self).credentials(),
    ;

    /// Forgets the platform's credential; the others are untouched.
    fn clear_credential(&mut self, platform: PlatformId) -> (r: Result<(), RepositoryError>)
        ensures
            old(self).accepts() ==> r is Ok,
            final(self).accepts() == old(self).accepts(),
            r is Ok ==> final(self).credentials() == old(self).credentials().remove(platform.0),
            r is Err ==> final(self).credentials() == old(self).credentials(),
    ;
}

/// Credentials in memory. A saved credential is stored trimmed.
pub struct InMemoryPlatformCredentialRepository {
    credentials: HashMap<u32, String>,
}

impl InMemoryPlatformCredentialRepository {
    pub fn new() -> (r: Self)
        ensures
            r.credentials() == Map::<u32, Seq<char>>::empty(),
    {
        InMemoryPlatformCredentialRepository { credentials: HashMap::new() }
    }

    /// A repository holding the given credentials as given; where a
    /// platform occurs twice, the later credential wins.
    pub fn seeded(credentials: Vec<(PlatformId, String)>) -> (r: Self)
        ensures
            r.credentials() == seeded_map(credentials@),
    {
        let ghost s = credentials@;
        let mut map: HashMap<u32, String> = HashMap::new();
        let mut i: usize = 0;
        let n = credentials.len();
        while i < n
            invariant
                i <= n,
                n == s.len(),
                s == credentials@,
                map@.map_values(|c: String| c@) == seeded_map(s.take(i as int)),
            decreases n - i,
        {
            proof {
                assert(s.take(i + 1).drop_last() == s.take(i as int));
            }
            let ghost before = map@;
            let platform = credentials[i].0;
            let credential = credentials[i].1.clone();
            map.insert(platform.0, credential);
            proof {
                assert(map@.map_values(|c: String| c@) == before.map_values(|c: String| c@).insert(
                    s[i as int].0.0,
                    s[i as int].1@,
                ));
            }
            i += 1;
        }
        proof {
            assert(s.take(n as int) == s);
        }
        InMemoryPlatformCredentialRepository { credentials: map }
    }
}

/// The credentials a list of pairs makes, later pairs overriding earlier.
pub open spec fn seeded_map(s: Seq<(PlatformId, String)>) -> Map<u32, Seq<char>>
    decreases s.len(),
{
    if s.len() == 0 {
        Map::empty()
    } else {
        seeded_map(s.drop_last()).insert(s.last().0.0, s.last().1@)
    }
}

impl PlatformCredentialRepository for InMemoryPlatformCredentialRepository {
    closed spec fn credentials(&self) -> Map<u32, Seq<char>> {
        self.credentials@.map_values(|c: String| c@)
    }

    open spec fn accepts(&self) -> bool {
        true
    }

    fn load_credential(&self, platform: PlatformId) -> (r: Result<Option<String>, RepositoryError>)
        ensures
            r is Ok,
    {
        match self.credentials.get(&platform.0) {
            Some(c) => Ok(Some(c.clone())),
            None => Ok(None),
        }
    }

    fn save_credential(&mut self, platform: PlatformId, credential: &str) -> (r: Result<
        (),
        RepositoryError,
    >)
        ensures
            r is Ok,
            final(self).credentials() == old(self).credentials().insert(
                platform.0,
                trim(credential@),
            ),
    {
        let trimmed = trim_str(credential);
        let ghost before = self.credentials@;
        self.credentials.insert(platform.0, trimmed);
        proof {
            assert(self.credentials@.map_values(|c: String| c@) == before.map_values(
                |c: String| c@,
            ).insert(platform.0, trim(credential@)));
        }
        Ok(())
    }

    fn clear_credential(&mut self, platform: PlatformId) -> (r: Result<(), RepositoryError>)
        ensures
            r is Ok,
    {
        let ghost before = self.credentials@;
        self.credentials.remove(&platform.0);
        proof {
            assert(self.credentials@.map_values(|c: String| c@) == before.map_values(
                |c: String| c@,
            ).remove(platform.0));
        }
        Ok(())
    }
}

/// Persistence of the broadcaster's Twitch refresh token.
pub trait TwitchTokenRepository {
    /// The stored token, if any.
    spec fn token(&self) -> Option<Seq<char>>;

    /// Whether the store takes every read and write (an in-memory store
    /// always does); where it does, no call fails.
    spec fn accepts(&self) -> bool;

    fn load(&self) -> (r: Result<Option<String>, RepositoryError>)
        ensures
            self.accepts() ==> r is Ok,
            r matches Ok(v) ==> match v {
                Some(t) => self.token() == Some(t@),
                None => self.token() is None,
            },
    ;

    /// Stores the token, trimmed.
    fn save(&mut self, refresh_token: &str) -> (r: Result<(), RepositoryError>)
        ensures
            old(self).accepts() ==> r is Ok,
            final(self).accepts() == old(self).accepts(),
            r is Ok ==> final(self).token() == Some(trim(refresh_token@)),
            r is Err ==> final(self).token() == old(self).token(),
    ;

    fn clear(&mut self) -> (r: Result<(), RepositoryError>)
        ensures
            old(self).accepts() ==> r is Ok,
            final(self).accepts() == old(self).accepts(),
            r is Ok ==> final(self).token() is None,
            r is Err ==> final(self).token() == old(self).token(),
    ;
}

/// The refresh token in memory. A saved token is stored trimmed.
pub struct InMemoryTwitchTokenRepository {
    token: Option<String>,
}

impl InMemoryTwitchTokenRepository {
    pub fn new() -> (r: Self)
        ensures
            r.token() is None,
    {
        InMemoryTwitchTokenRepository { token: None }
    }

    /// A repository holding the token as given.
    pub fn seeded(token: String) -> (r: Self)
        ensures
            r.token() == Some(token@),
    {
        InMemoryTwitchTokenRepository { token: Some(token) }
    }
}

impl TwitchTokenRepository for InMemoryTwitchTokenRepository {
    closed spec fn token(&self) -> Option<Seq<char>> {
        match self.token {
            Some(t) => Some(t@),
            None => None,
        }
    }

    open spec fn accepts(&self) -> bool {
        true
    }

    fn load(&self) -> (r: Result<Option<String>, RepositoryError>)
        ensures
            r is Ok,
    {
        match &self.token {
            Some(t) => Ok(Some(t.clone())),
            None => Ok(None),
        }
    }

    fn save(&mut self, refresh_token: &str) -> (r: Result<(), RepositoryError>)
        ensures
            r is Ok,
            final(self).token() == Some(trim(refresh_token@)),
    {
        self.token = Some(trim_str(refresh_token));
        Ok(())
    }

    fn clear(&mut self) -> (r: Result<(), RepositoryError>)
        ensures
            r is Ok,
    {
        self.token = None;
        Ok(())
    }
}

} // verus!
