//! The admin side of the Twitch OAuth flow: authorisation URLs, the book of
//! pending CSRF tickets, and the stored bot credentials.

use std::sync::Arc;

use vstd::prelude::*;

use crate::config::TwitchConfig;
use crate::credentials::PlatformCredentialRepository;
use crate::ids::PlatformId;
use crate::text::{trim, views_of};

verus! {

/// Whether `url::Url::parse` accepts the text as an absolute URL.
pub uninterp spec fn url_parses(s: Seq<char>) -> bool;

/// Whether `url::Url::parse` accepts the text (the named `url_parses`).
#[verifier::external_body]
fn redirect_parses(s: &str) -> (r: bool)
    ensures
        r == url_parses(s@),
{
    url::Url::parse(s).is_ok()
}

/// What `UserTokenBuilder::generate_url` builds for the application's
/// client id, the redirect (as `Url::parse` reads it), the scopes (by name,
/// through `Scope::parse`) and the CSRF ticket `state`: Twitch's authorize
/// endpoint with the form-encoded `response_type`, `client_id`,
/// `redirect_uri`, `state` and, when there are scopes, `scope` (their
/// names joined by spaces).
pub uninterp spec fn authorize_url(
    client_id: Seq<char>,
    redirect: Seq<char>,
    scopes: Seq<Seq<char>>,
    state: Seq<char>,
) -> Seq<char>;

/// Parses the redirect with `url::Url::parse`, builds a
/// `twitch_oauth2::UserTokenBuilder` for it with the scopes, and calls
/// `generate_url`. `None` exactly when the redirect does not parse (the
/// named `url_parses`). Otherwise the URL is the named `authorize_url` of
/// the client id, the redirect, the scope names and the fresh CSRF ticket,
/// and starts with the authorize endpoint and `response_type=code`; the
/// ticket is random (16 random bytes in standard base64, so always 24
/// characters), and nothing else is promised of it.
#[verifier::external_body]
fn generate_authorize_url(
    client_id: &String,
    client_secret: &String,
    redirect: &str,
    scopes: &Vec<String>,
) -> (r: Option<(String, String)>)
    ensures
        r is Some <==> url_parses(redirect@),
        r matches Some((url, csrf)) ==> {
            &&& csrf@.len() == 24
            &&& url@ == authorize_url(client_id@, redirect@, views_of(scopes@), csrf@)
            &&& "https://id.twitch.tv/oauth2/authorize?response_type=code&client_id="@.is_prefix_of(url@)
        },
{
    let redirect_url = url::Url::parse(redirect).ok()?;
    let scopes = scopes.iter().map(|name| twitch_oauth2::Scope::parse(name.clone())).collect();
    let mut builder = twitch_oauth2::UserTokenBuilder::new(
        client_id.clone(),
        client_secret.clone(),
        redirect_url,
    ).set_scopes(scopes);
    let (url, csrf) = builder.generate_url();
    Some((url.to_string(), csrf.secret().to_string()))
}

/// Who authorised the application, as the token exchange reported it.
#[derive(Debug)]
pub struct ExchangedToken {
    pub user_id: String,
    pub user_name: Option<String>,
}

/// Failures of the OAuth flow.
#[derive(Debug, PartialEq, Eq, Structural)]
pub enum AdminAuthError {
    NotConfigured,
    CsrfMismatch,
    InvalidRedirectUri,
    Exchange,
    Persist,
}

impl AdminAuthError {
    /// The HTTP status the error is answered with.
    pub fn status_code(&self) -> (r: u16)
        ensures
            r == match *self {
                AdminAuthError::NotConfigured => 400u16,
                AdminAuthError::CsrfMismatch => 403u16,
                _ => 500u16,
            },
    {
        match self {
            AdminAuthError::NotConfigured => 400,
            AdminAuthError::CsrfMismatch => 403,
            AdminAuthError::InvalidRedirectUri => 500,
            AdminAuthError::Exchange => 500,
            AdminAuthError::Persist => 500,
        }
    }
}

/// The names of the scopes the bot account is asked for.
pub open spec fn admin_scope_names() -> Seq<Seq<char>> {
    seq!["chat:read"@, "user:bot"@, "channel:bot"@]
}

/// The scopes an authorisation asks for: none for the admin login, the
/// bot's scopes for the credentials.
pub open spec fn scopes_for(login: bool) -> Seq<Seq<char>> {
    if login {
        Seq::empty()
    } else {
        admin_scope_names()
    }
}

/// The scopes the bot account grants: reading chat and acting as a bot.
fn admin_scopes() -> (r: Vec<String>)
    ensures
        views_of(r@) == admin_scope_names(),
{
    let mut scopes: Vec<String> = Vec::new();
    scopes.push(String::from_str("chat:read"));
    scopes.push(String::from_str("user:bot"));
    scopes.push(String::from_str("channel:bot"));
    proof {
        assert(views_of(scopes@) =~= admin_scope_names());
    }
    scopes
}

/// A pending ticket: its text and when it expires (microseconds).
pub type Ticket = (Seq<char>, i64);

/// Whether a ticket is still valid at `now`.
pub open spec fn live_at(now: i64) -> spec_fn(Ticket) -> bool {
    |t: Ticket| t.1 > now
}

/// The tickets still valid at `now`.
pub open spec fn pruned(s: Seq<Ticket>, now: i64) -> Seq<Ticket> {
    s.filter(live_at(now))
}

/// Whether a ticket has another text than `k`.
pub open spec fn other_than(k: Seq<char>) -> spec_fn(Ticket) -> bool {
    |t: Ticket| t.0 != k
}

/// The tickets without the one named `k`.
pub open spec fn without(s: Seq<Ticket>, k: Seq<char>) -> Seq<Ticket> {
    s.filter(other_than(k))
}

/// Whether a ticket named `k` is pending.
pub open spec fn has_ticket(s: Seq<Ticket>, k: Seq<char>) -> bool {
    exists|i: int| 0 <= i < s.len() && #[trigger] s[i].0 == k
}

/// No two pending tickets share a text.
pub open spec fn keys_unique(s: Seq<Ticket>) -> bool {
    forall|i: int, j: int| 0 <= i < s.len() && 0 <= j < s.len() && i != j ==> s[i].0 != s[j].0
}

/// The expiry of a ticket minted at `now` with a lifetime in seconds,
/// saturating at the largest timestamp.
pub open spec fn ticket_expiry(now: i64, ttl_secs: u64) -> i64 {
    let e = now + ttl_secs * 1_000_000;
    if e > i64::MAX {
        i64::MAX
    } else {
        e as i64
    }
}

/// The book after minting `k`: expired tickets dropped, `k` added (or
/// renewed) with its expiry.
pub open spec fn minted(s: Seq<Ticket>, now: i64, k: Seq<char>, expiry: i64) -> Seq<Ticket> {
    without(pruned(s, now), k).push((k, expiry))
}

pub(crate) fn expiry_of(now: i64, ttl_secs: u64) -> (r: i64)
    ensures
        r == ticket_expiry(now, ttl_secs),
{
    let e: i128 = now as i128 + (ttl_secs as i128) * 1_000_000;
    if e > i64::MAX as i128 {
        i64::MAX
    } else {
        e as i64
    }
}

/// The pending CSRF tickets: each text with when it expires
/// (microseconds). No text is pending twice.
pub struct TicketBook {
    entries: Vec<(String, i64)>,
}

impl TicketBook {
    /// The pending tickets, in the order they were booked.
    pub closed spec fn tickets(&self) -> Seq<Ticket> {
        self.entries@.map_values(|e: (String, i64)| (e.0@, e.1))
    }

    #[verifier::type_invariant]
    spec fn unique(&self) -> bool {
        keys_unique(self.tickets())
    }

    pub fn new() -> (r: Self)
        ensures
            r.tickets() == Seq::<Ticket>::empty(),
    {
        let r = TicketBook { entries: Vec::new() };
        assert(r.tickets() =~= Seq::<Ticket>::empty());
        r
    }

    /// The number of pending tickets.
    pub fn len(&self) -> (r: usize)
        ensures
            r == self.tickets().len(),
    {
        self.entries.len()
    }

    /// The texts of the pending tickets.
    pub fn texts(&self) -> (r: Vec<String>)
        ensures
            r@.len() == self.tickets().len(),
            forall|i: int| 0 <= i < r@.len() ==> #[trigger] r@[i]@ == self.tickets()[i].0,
    {
        let mut out: Vec<String> = Vec::new();
        let mut i: usize = 0;
        while i < self.entries.len()
            invariant
                i <= self.entries@.len(),
                out@.len() == i,
                forall|k: int| 0 <= k < i ==> #[trigger] out@[k]@ == self.tickets()[k].0,
            decreases self.entries@.len() - i,
        {
            out.push(self.entries[i].0.clone());
            i += 1;
        }
        out
    }

    /// Drops the tickets that expired at `now`.
    pub fn prune_expired_at(&mut self, now: i64)
        ensures
            final(self).tickets() == pruned(old(self).tickets(), now),
    {
        proof {
            use_type_invariant(&*self);
        }
        let ghost s = self.tickets();
        let mut kept: Vec<(String, i64)> = Vec::new();
        let mut i: usize = 0;
        let n = self.entries.len();
        while i < n
            invariant
                i <= n,
                n == s.len(),
                s == self.entries@.map_values(|e: (String, i64)| (e.0@, e.1)),
                kept@.map_values(|e: (String, i64)| (e.0@, e.1)) == s.take(i as int).filter(
                    live_at(now),
                ),
            decreases n - i,
        {
            proof {
                crate::seqs::lemma_take_one_more_filter(s, i as int, live_at(now));
            }
            if self.entries[i].1 > now {
                let ghost before = kept@;
                let t = (self.entries[i].0.clone(), self.entries[i].1);
                kept.push(t);
                proof {
                    assert(kept@.map_values(|e: (String, i64)| (e.0@, e.1)) == before.map_values(
                        |e: (String, i64)| (e.0@, e.1),
                    ).push(s[i as int]));
                }
            }
            i += 1;
        }
        proof {
            assert(s.take(n as int) == s);
            lemma_filter_keeps_unique(s, live_at(now));
        }
        self.entries = kept;
    }

    /// Removes the ticket named `k`; reports whether there was one.
    pub fn remove(&mut self, k: &str) -> (found: bool)
        ensures
            found == has_ticket(old(self).tickets(), k@),
            final(self).tickets() == without(old(self).tickets(), k@),
    {
        proof {
            use_type_invariant(&*self);
        }
        let ghost s = self.tickets();
        let mut kept: Vec<(String, i64)> = Vec::new();
        let mut found = false;
        let mut i: usize = 0;
        let n = self.entries.len();
        while i < n
            invariant
                i <= n,
                n == s.len(),
                s == self.entries@.map_values(|e: (String, i64)| (e.0@, e.1)),
                kept@.map_values(|e: (String, i64)| (e.0@, e.1)) == s.take(i as int).filter(
                    other_than(k@),
                ),
                found == has_ticket(s.take(i as int), k@),
            decreases n - i,
        {
            proof {
                crate::seqs::lemma_take_one_more_filter(s, i as int, other_than(k@));
                assert(s.take(i + 1)[i as int] == s[i as int]);
                assert forall|j: int| 0 <= j < i implies #[trigger] s.take(i + 1)[j] == s.take(
                    i as int,
                )[j] by {}
            }
            let same = crate::text::eq_str(&self.entries[i].0, k);
            if same {
                found = true;
            } else {
                let ghost before = kept@;
                let t = (self.entries[i].0.clone(), self.entries[i].1);
                kept.push(t);
                proof {
                    assert(kept@.map_values(|e: (String, i64)| (e.0@, e.1)) == before.map_values(
                        |e: (String, i64)| (e.0@, e.1),
                    ).push(s[i as int]));
                }
            }
            proof {
                if has_ticket(s.take(i + 1), k@) && !has_ticket(s.take(i as int), k@) {
                    let j = choose|j: int| 0 <= j < i + 1 && #[trigger] s.take(i + 1)[j].0 == k@;
                    assert(j == i);
                }
            }
            i += 1;
        }
        proof {
            assert(s.take(n as int) == s);
            lemma_filter_keeps_unique(s, other_than(k@));
        }
        self.entries = kept;
        found
    }

    /// Books the ticket `k`, which is not pending, until `expires_at`.
    pub fn book(&mut self, k: String, expires_at: i64)
        requires
            !has_ticket(old(self).tickets(), k@),
        ensures
            final(self).tickets() == old(self).tickets().push((k@, expires_at)),
    {
        proof {
            use_type_invariant(&*self);
        }
        let ghost before = self.tickets();
        let ghost key = k@;
        let mut entries: Vec<(String, i64)> = Vec::new();
        std::mem::swap(&mut entries, &mut self.entries);
        entries.push((k, expires_at));
        proof {
            let after = entries@.map_values(|e: (String, i64)| (e.0@, e.1));
            assert(after == before.push((key, expires_at)));
            assert forall|i: int, j: int| 0 <= i < j < after.len() implies after[i].0 != after[j].0 by {
                if j == before.len() {
                    assert(after[i] == before[i]);
                } else {
                    assert(after[i] == before[i] && after[j] == before[j]);
                }
            }
        }
        self.entries = entries;
    }
}

#[verifier::external_type_specification]
#[verifier::external_body]
pub struct ExInstant(std::time::Instant);

/// The current reading of the monotonic clock, through
/// `std::time::Instant::now`. Nothing is promised of it.
#[verifier::external_body]
fn monotonic_now() -> std::time::Instant {
    std::time::Instant::now()
}

/// The microseconds passed since `origin` on the monotonic clock, through
/// `Instant::elapsed` (saturating at the largest timestamp). Nothing is
/// promised of the value.
#[verifier::external_body]
fn micros_since(origin: &std::time::Instant) -> i64 {
    i64::try_from(origin.elapsed().as_micros()).unwrap_or(i64::MAX)
}

/// Starts and finishes the Twitch authorisations of the admin flows.
pub struct AdminAuthService<R: PlatformCredentialRepository> {
    config: Option<Arc<TwitchConfig>>,
    book: TicketBook,
    credentials: R,
    /// Where the service's monotonic clock counts from: ticket times are
    /// microseconds since then.
    clock_origin: std::time::Instant,
}

impl<R: PlatformCredentialRepository> AdminAuthService<R> {
    /// The Twitch settings, if Twitch is configured.
    pub closed spec fn config(&self) -> Option<Arc<TwitchConfig>> {
        self.config
    }

    /// The pending CSRF tickets.
    pub closed spec fn tickets(&self) -> Seq<Ticket> {
        self.book.tickets()
    }

    /// The credential repository.
    pub closed spec fn credential_repo(&self) -> R {
        self.credentials
    }

    pub fn new(config: Option<Arc<TwitchConfig>>, credentials: R) -> (r: Self)
        ensures
            r.config() == config,
            r.tickets() == Seq::<Ticket>::empty(),
            r.credential_repo() == credentials,
    {
        AdminAuthService { config, book: TicketBook::new(), credentials, clock_origin: monotonic_now() }
    }

    /// The number of pending tickets.
    pub fn pending_ticket_count(&self) -> (r: usize)
        ensures
            r == self.tickets().len(),
    {
        self.book.len()
    }

    /// The texts of the pending tickets.
    pub fn pending_tickets(&self) -> (r: Vec<String>)
        ensures
            r@.len() == self.tickets().len(),
            forall|i: int| 0 <= i < r@.len() ==> #[trigger] r@[i]@ == self.tickets()[i].0,
    {
        self.book.texts()
    }

    /// Mints an authorisation URL for the given scopes and redirect, and
    /// books its ticket.
    fn start_with(
        &mut self,
        scopes: Vec<String>,
        login: bool,
        now: i64,
    ) -> (r: Result<String, AdminAuthError>)
        requires
            views_of(scopes@) == scopes_for(login),
        ensures
            final(self).config() == old(self).config(),
            final(self).credential_repo() == old(self).credential_repo(),
            start_outcome(old(self).config(), old(self).tickets(), final(self).tickets(), login, now, r),
    {
        let ghost old_t = self.tickets();
        let twitch = match &self.config {
            Some(t) => t,
            None => {
                return Err(AdminAuthError::NotConfigured);
            },
        };
        let redirect = if login {
            twitch.redirect_uri.as_str()
        } else {
            twitch.credentials_redirect_uri.as_str()
        };
        let (auth_url, csrf) = match generate_authorize_url(
            &twitch.client_id,
            &twitch.client_secret,
            redirect,
            &scopes,
        ) {
            Some(pair) => pair,
            None => {
                return Err(AdminAuthError::InvalidRedirectUri);
            },
        };
        let ttl = twitch.csrf_ttl_secs;
        let expires_at = expiry_of(now, ttl);
        self.book.prune_expired_at(now);
        let _ = self.book.remove(csrf.as_str());
        let ghost before = self.tickets();
        proof {
            if has_ticket(before, csrf@) {
                let i = choose|i: int| 0 <= i < before.len() && #[trigger] before[i].0 == csrf@;
                assert(other_than(csrf@)(before[i]));
            }
        }
        let ghost k = csrf@;
        self.book.book(csrf, expires_at);
        proof {
            assert(self.tickets() == minted(old_t, now, k, expires_at));
            assert(auth_url@ == authorize_url(
                twitch.client_id@,
                redirect@,
                scopes_for(login),
                k,
            ));
        }
        Ok(auth_url)
    }

    /// Starts the bot-credentials authorisation at `now`: the chat scopes,
    /// redirected to the credentials callback.
    pub fn start_at(&mut self, now: i64) -> (r: Result<String, AdminAuthError>)
        ensures
            final(self).config() == old(self).config(),
            final(self).credential_repo() == old(self).credential_repo(),
            start_outcome(old(self).config(), old(self).tickets(), final(self).tickets(), false, now, r),
    {
        let scopes = admin_scopes();
        self.start_with(scopes, false, now)
    }

    /// Starts the admin login at `now`: no scopes, redirected to the login
    /// callback.
    pub fn start_login_at(&mut self, now: i64) -> (r: Result<String, AdminAuthError>)
        ensures
            final(self).config() == old(self).config(),
            final(self).credential_repo() == old(self).credential_repo(),
            start_outcome(old(self).config(), old(self).tickets(), final(self).tickets(), true, now, r),
    {
        let scopes: Vec<String> = Vec::new();
        proof {
            assert(views_of(scopes@) =~= scopes_for(true));
        }
        self.start_with(scopes, true, now)
    }

    /// Starts the bot-credentials authorisation now.
    pub fn start(&mut self) -> (r: Result<String, AdminAuthError>)
        ensures
            final(self).config() == old(self).config(),
            final(self).credential_repo() == old(self).credential_repo(),
            exists|now: i64|
                start_outcome(
                    old(self).config(),
                    old(self).tickets(),
                    final(self).tickets(),
                    false,
                    now,
                    r,
                ),
    {
        let now = micros_since(&self.clock_origin);
        self.start_at(now)
    }

    /// Starts the admin login now.
    pub fn start_login(&mut self) -> (r: Result<String, AdminAuthError>)
        ensures
            final(self).config() == old(self).config(),
            final(self).credential_repo() == old(self).credential_repo(),
            exists|now: i64|
                start_outcome(
                    old(self).config(),
                    old(self).tickets(),
                    final(self).tickets(),
                    true,
                    now,
                    r,
                ),
    {
        let now = micros_since(&self.clock_origin);
        self.start_login_at(now)
    }

    /// Checks the `state` a callback brings at `now`: expired tickets are
    /// dropped, and the ticket named `state` is consumed if it is pending.
    pub fn consume_csrf_at(&mut self, auth_state: &str, now: i64) -> (r: Result<(), AdminAuthError>)
        ensures
            final(self).config() == old(self).config(),
            final(self).credential_repo() == old(self).credential_repo(),
            consume_outcome(old(self).config(), old(self).tickets(), final(self).tickets(), auth_state@, now, r),
    {
        if self.config.is_none() {
            return Err(AdminAuthError::NotConfigured);
        }
        self.book.prune_expired_at(now);
        let ghost p = self.tickets();
        if self.book.remove(auth_state) {
            Ok(())
        } else {
            proof {
                lemma_without_absent(p, auth_state@);
            }
            Err(AdminAuthError::CsrfMismatch)
        }
    }

    /// Checks the `state` a callback brings, now.
    pub fn consume_csrf(&mut self, auth_state: &str) -> (r: Result<(), AdminAuthError>)
        ensures
            final(self).config() == old(self).config(),
            final(self).credential_repo() == old(self).credential_repo(),
            exists|now: i64|
                consume_outcome(
                    old(self).config(),
                    old(self).tickets(),
                    final(self).tickets(),
                    auth_state@,
                    now,
                    r,
                ),
    {
        let now = micros_since(&self.clock_origin);
        self.consume_csrf_at(auth_state, now)
    }

    /// Opens the exchange of a callback at `now`: the callback's `state`
    /// must be a pending ticket (it is used up), and the redirect of the
    /// flow (the login one when `login`, else the credentials one) must
    /// parse, as the code exchange names it again.
    pub fn begin_exchange_at(&mut self, auth_state: &str, login: bool, now: i64) -> (r: Result<
        (),
        AdminAuthError,
    >)
        ensures
            final(self).config() == old(self).config(),
            final(self).credential_repo() == old(self).credential_repo(),
            exchange_outcome(old(self).config(), old(self).tickets(), final(self).tickets(), auth_state@, login, now, r),
    {
        match self.consume_csrf_at(auth_state, now) {
            Err(e) => return Err(e),
            Ok(()) => {},
        }
        let twitch = match &self.config {
            Some(t) => t,
            None => return Err(AdminAuthError::NotConfigured),
        };
        let redirect = if login {
            twitch.redirect_uri.as_str()
        } else {
            twitch.credentials_redirect_uri.as_str()
        };
        if redirect_parses(redirect) {
            Ok(())
        } else {
            Err(AdminAuthError::InvalidRedirectUri)
        }
    }

    /// Opens the exchange of a callback now.
    pub fn begin_exchange(&mut self, auth_state: &str, login: bool) -> (r: Result<(), AdminAuthError>)
        ensures
            final(self).config() == old(self).config(),
            final(self).credential_repo() == old(self).credential_repo(),
            exists|now: i64|
                exchange_outcome(
                    old(self).config(),
                    old(self).tickets(),
                    final(self).tickets(),
                    auth_state@,
                    login,
                    now,
                    r,
                ),
    {
        let now = micros_since(&self.clock_origin);
        self.begin_exchange_at(auth_state, login, now)
    }

    /// Finishes the bot-credentials flow once the code was exchanged: the
    /// refresh token is stored as the Twitch credential, and who authorised
    /// is reported. Without a refresh token the exchange counts as failed.
    pub fn complete_with_token(
        &mut self,
        refresh_token: Option<&str>,
        user_id: Option<String>,
        user_name: Option<String>,
    ) -> (r: Result<ExchangedToken, AdminAuthError>)
        ensures
            final(self).config() == old(self).config(),
            final(self).tickets() == old(self).tickets(),
            final(self).credential_repo().accepts() == old(self).credential_repo().accepts(),
            refresh_token is Some && old(self).credential_repo().accepts() ==> r is Ok,
            match r {
                Ok(t) => {
                    &&& refresh_token is Some
                    &&& final(self).credential_repo().credentials() == old(
                        self,
                    ).credential_repo().credentials().insert(1, trim(refresh_token->0@))
                    &&& exchanged(user_id, user_name, t)
                },
                Err(AdminAuthError::Exchange) => {
                    &&& refresh_token is None
                    &&& final(self).credential_repo() == old(self).credential_repo()
                },
                Err(AdminAuthError::Persist) => {
                    &&& refresh_token is Some
                    &&& final(self).credential_repo().credentials() == old(self).credential_repo().credentials()
                },
                Err(_) => false,
            },
    {
        let token = match refresh_token {
            Some(t) => t,
            None => {
                return Err(AdminAuthError::Exchange);
            },
        };
        match self.credentials.save_credential(PlatformId::twitch(), token) {
            Ok(()) => {},
            Err(_) => {
                return Err(AdminAuthError::Persist);
            },
        }
        Ok(exchanged_of(user_id, user_name))
    }

    /// Whether a Twitch credential is stored.
    pub fn is_ingress_credentials_configured(&self) -> (r: Result<bool, AdminAuthError>)
        ensures
            self.credential_repo().accepts() ==> r is Ok,
            match r {
                Ok(b) => b == self.credential_repo().credentials().contains_key(1),
                Err(e) => e == AdminAuthError::Persist,
            },
    {
        match self.credentials.load_credential(PlatformId::twitch()) {
            Ok(v) => Ok(v.is_some()),
            Err(_) => Err(AdminAuthError::Persist),
        }
    }

    /// Forgets the stored Twitch credential.
    pub fn revoke_ingress_credentials(&mut self) -> (r: Result<(), AdminAuthError>)
        ensures
            final(self).config() == old(self).config(),
            final(self).credential_repo().accepts() == old(self).credential_repo().accepts(),
            old(self).credential_repo().accepts() ==> r is Ok,
            final(self).tickets() == old(self).tickets(),
            match r {
                Ok(()) => final(self).credential_repo().credentials() == old(self).credential_repo().credentials().remove(1),
                Err(e) => e == AdminAuthError::Persist && final(self).credential_repo().credentials() == old(self).credential_repo().credentials(),
            },
    {
        match self.credentials.clear_credential(PlatformId::twitch()) {
            Ok(()) => Ok(()),
            Err(_) => Err(AdminAuthError::Persist),
        }
    }

    /// The credential repository.
    pub fn credentials(&self) -> (r: &R)
        ensures
            *r == self.credential_repo(),
    {
        &self.credentials
    }

    /// The credential repository, for changing it.
    pub fn credentials_mut(&mut self) -> (r: &mut R)
        ensures
            *r == old(self).credential_repo(),
            final(self).credential_repo() == *final(r),
            final(self).config() == old(self).config(),
            final(self).tickets() == old(self).tickets(),
    {
        &mut self.credentials
    }
}

/// What starting a flow does: without Twitch settings, or with a redirect
/// the URL parser refuses, it fails and the book is unchanged; otherwise it
/// drops the tickets expired at `now`, books a fresh 24-character ticket
/// that lives for the configured lifetime, and returns Twitch's authorize
/// URL for the client id, the chosen redirect (login or credentials), the
/// scopes of the flow and that ticket as its state.
pub open spec fn start_outcome(
    config: Option<Arc<TwitchConfig>>,
    before: Seq<Ticket>,
    after: Seq<Ticket>,
    login: bool,
    now: i64,
    r: Result<String, AdminAuthError>,
) -> bool {
    match config {
        None => r == Err::<String, AdminAuthError>(AdminAuthError::NotConfigured) && after
            == before,
        Some(t) => {
            let redirect = if login {
                t.redirect_uri@
            } else {
                t.credentials_redirect_uri@
            };
            if !url_parses(redirect) {
                r == Err::<String, AdminAuthError>(AdminAuthError::InvalidRedirectUri) && after
                    == before
            } else {
                exists|k: Seq<char>|
                    {
                        &&& k.len() == 24
                        &&& after == #[trigger] minted(
                            before,
                            now,
                            k,
                            ticket_expiry(now, t.csrf_ttl_secs),
                        )
                        &&& r matches Ok(u) && u@ == authorize_url(
                            t.client_id@,
                            redirect,
                            scopes_for(login),
                            k,
                        ) && "https://id.twitch.tv/oauth2/authorize?response_type=code&client_id="@.is_prefix_of(
                            u@,
                        )
                    }
            }
        },
    }
}

/// What checking a callback's `state` does: without Twitch settings it
/// fails and nothing changes; otherwise the tickets expired at `now` are
/// dropped, and it succeeds exactly when a ticket named `state` was still
/// pending, which is then gone.
pub open spec fn consume_outcome(
    config: Option<Arc<TwitchConfig>>,
    before: Seq<Ticket>,
    after: Seq<Ticket>,
    state: Seq<char>,
    now: i64,
    r: Result<(), AdminAuthError>,
) -> bool {
    match config {
        None => r == Err::<(), AdminAuthError>(AdminAuthError::NotConfigured) && after == before,
        Some(_) => {
            let p = pruned(before, now);
            if has_ticket(p, state) {
                r is Ok && after == without(p, state)
            } else {
                r == Err::<(), AdminAuthError>(AdminAuthError::CsrfMismatch) && after == p
            }
        },
    }
}

/// What opening a callback's exchange does: the ticket is checked and
/// used up as by `consume_outcome`; once it was, a redirect of the flow
/// that does not parse refuses the exchange (the ticket stays used up).
pub open spec fn exchange_outcome(
    config: Option<Arc<TwitchConfig>>,
    before: Seq<Ticket>,
    after: Seq<Ticket>,
    state: Seq<char>,
    login: bool,
    now: i64,
    r: Result<(), AdminAuthError>,
) -> bool {
    match config {
        Some(t) => {
            let p = pruned(before, now);
            let redirect = if login {
                t.redirect_uri@
            } else {
                t.credentials_redirect_uri@
            };
            if !has_ticket(p, state) {
                r == Err::<(), AdminAuthError>(AdminAuthError::CsrfMismatch) && after == p
            } else if !url_parses(redirect) {
                r == Err::<(), AdminAuthError>(AdminAuthError::InvalidRedirectUri) && after
                    == without(p, state)
            } else {
                r is Ok && after == without(p, state)
            }
        },
        None => r == Err::<(), AdminAuthError>(AdminAuthError::NotConfigured) && after == before,
    }
}

/// Whether `t` reports the given user: a missing id becomes empty.
pub open spec fn exchanged(user_id: Option<String>, user_name: Option<String>, t: ExchangedToken) -> bool {
    &&& t.user_id@ == match user_id {
        Some(u) => u@,
        None => Seq::<char>::empty(),
    }
    &&& t.user_name == user_name
}

/// Who authorised, from the identity the token exchange returned.
pub fn exchanged_of(user_id: Option<String>, user_name: Option<String>) -> (r: ExchangedToken)
    ensures
        exchanged(user_id, user_name, r),
{
    let id = match user_id {
        Some(u) => u,
        None => String::new(),
    };
    ExchangedToken { user_id: id, user_name }
}

/// Filtering keeps the texts of the pending tickets distinct.
pub proof fn lemma_filter_keeps_unique(s: Seq<Ticket>, pred: spec_fn(Ticket) -> bool)
    requires
        keys_unique(s),
    ensures
        keys_unique(s.filter(pred)),
    decreases s.len(),
{
    if s.len() > 0 {
        let init = s.drop_last();
        assert(keys_unique(init));
        lemma_filter_keeps_unique(init, pred);
        assert(s == init.push(s.last()));
        init.lemma_filter_push(s.last(), pred);
        if pred(s.last()) {
            let f = init.filter(pred);
            assert forall|i: int| 0 <= i < f.len() implies #[trigger] f[i].0 != s.last().0 by {
                assert(f.contains(f[i]));
                init.lemma_filter_contains_rev(pred, f[i]);
                let j = choose|j: int| 0 <= j < init.len() && init[j] == f[i];
                assert(s[j] == init[j]);
            }
        }
    }
}

/// Removing a ticket that is not pending changes nothing.
pub proof fn lemma_without_absent(s: Seq<Ticket>, k: Seq<char>)
    requires
        !has_ticket(s, k),
    ensures
        without(s, k) == s,
    decreases s.len(),
{
    if s.len() > 0 {
        let init = s.drop_last();
        assert(!has_ticket(init, k)) by {
            if has_ticket(init, k) {
                let i = choose|i: int| 0 <= i < init.len() && #[trigger] init[i].0 == k;
                assert(s[i].0 == k);
            }
        }
        lemma_without_absent(init, k);
        assert(s == init.push(s.last()));
        init.lemma_filter_push(s.last(), other_than(k));
        assert(s[s.len() - 1].0 != k);
    }
}

/// A ticket serves one callback only: once a check has consumed it, a
/// later check of the same `state` is refused, whenever it comes.
pub proof fn lemma_ticket_single_use(s: Seq<Ticket>, state: Seq<char>, now1: i64, now2: i64)
    ensures
        !has_ticket(pruned(without(pruned(s, now1), state), now2), state),
{
    let p = pruned(s, now1);
    let a = without(p, state);
    let q = pruned(a, now2);
    if has_ticket(q, state) {
        let i = choose|i: int| 0 <= i < q.len() && #[trigger] q[i].0 == state;
        assert(q.contains(q[i]));
        a.lemma_filter_contains_rev(live_at(now2), q[i]);
        let j = choose|j: int| 0 <= j < a.len() && a[j] == q[i];
        p.lemma_filter_pred(other_than(state), j);
    }
}

/// Minting a ticket keeps every other ticket that is still valid, and
/// books the new one.
pub proof fn lemma_mint_keeps_others(
    s: Seq<Ticket>,
    now: i64,
    k: Seq<char>,
    expiry: i64,
    other: Ticket,
)
    requires
        s.contains(other),
        other.1 > now,
        other.0 != k,
    ensures
        minted(s, now, k, expiry).contains(other),
        minted(s, now, k, expiry).contains((k, expiry)),
{
    let i = choose|i: int| 0 <= i < s.len() && s[i] == other;
    s.lemma_filter_contains(live_at(now), i);
    let p = pruned(s, now);
    let j = choose|j: int| 0 <= j < p.len() && p[j] == other;
    p.lemma_filter_contains(other_than(k), j);
    let w = without(p, k);
    let m = minted(s, now, k, expiry);
    let h = choose|h: int| 0 <= h < w.len() && w[h] == other;
    assert(m[h] == other);
    assert(m[w.len() as int] == (k, expiry));
}

} // verus!
