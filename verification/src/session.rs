//! Admin sessions and the one-time login tickets that open them, kept in
//! memory by token.

use vstd::prelude::*;

use crate::error::{RepositoryError, SessionServiceError};

verus! {

/// The token that names a session.
#[derive(Debug)]
pub struct SessionToken(String);

impl SessionToken {
    pub closed spec fn text(&self) -> Seq<char> {
        self.0@
    }

    pub fn new(token: &str) -> (r: Self)
        ensures
            r.text() == token@,
    {
        SessionToken(token.to_owned())
    }

    pub fn as_str(&self) -> (r: &str)
        ensures
            r@ == self.text(),
    {
        self.0.as_str()
    }
}

impl Clone for SessionToken {
    fn clone(&self) -> (r: Self)
        ensures
            r == *self,
    {
        SessionToken(self.0.clone())
    }
}

/// The token that names a login ticket.
#[derive(Debug)]
pub struct LoginTicketToken(String);

impl LoginTicketToken {
    pub closed spec fn text(&self) -> Seq<char> {
        self.0@
    }

    pub fn new(token: &str) -> (r: Self)
        ensures
            r.text() == token@,
    {
        LoginTicketToken(token.to_owned())
    }

    pub fn as_str(&self) -> (r: &str)
        ensures
            r@ == self.text(),
    {
        self.0.as_str()
    }
}

impl Clone for LoginTicketToken {
    fn clone(&self) -> (r: Self)
        ensures
            r == *self,
    {
        LoginTicketToken(self.0.clone())
    }
}

/// A signed-in admin. Timestamps are microseconds since the epoch.
#[derive(Debug)]
pub struct Session {
    pub token: SessionToken,
    pub twitch_user_id: String,
    pub twitch_user_name: Option<String>,
    pub created_at: i64,
    pub expires_at: i64,
}

impl Clone for Session {
    fn clone(&self) -> (r: Self)
        ensures
            r == *self,
    {
        Session {
            token: self.token.clone(),
            twitch_user_id: self.twitch_user_id.clone(),
            twitch_user_name: match &self.twitch_user_name {
                Some(n) => Some(n.clone()),
                None => None,
            },
            created_at: self.created_at,
            expires_at: self.expires_at,
        }
    }
}

/// A one-time ticket, handed out after the Twitch login, that the
/// front-end trades for a session.
#[derive(Debug)]
pub struct LoginTicket {
    pub ticket: LoginTicketToken,
    pub twitch_user_id: String,
    pub twitch_user_name: Option<String>,
    pub created_at: i64,
    pub expires_at: i64,
}

impl Clone for LoginTicket {
    fn clone(&self) -> (r: Self)
        ensures
            r == *self,
    {
        LoginTicket {
            ticket: self.ticket.clone(),
            twitch_user_id: self.twitch_user_id.clone(),
            twitch_user_name: match &self.twitch_user_name {
                Some(n) => Some(n.clone()),
                None => None,
            },
            created_at: self.created_at,
            expires_at: self.expires_at,
        }
    }
}

/// Whether a session is named by something else than `k`.
pub open spec fn session_not_named(k: Seq<char>) -> spec_fn(Session) -> bool {
    |s: Session| s.token.text() != k
}

/// Whether a session is still valid at `now`.
pub open spec fn session_live(now: i64) -> spec_fn(Session) -> bool {
    |s: Session| s.expires_at > now
}

/// Whether a session named `k` is stored.
pub open spec fn has_session(s: Seq<Session>, k: Seq<char>) -> bool {
    exists|i: int| 0 <= i < s.len() && #[trigger] s[i].token.text() == k
}

/// No two sessions share a token.
pub open spec fn sessions_unique(s: Seq<Session>) -> bool {
    forall|i: int, j: int|
        0 <= i < s.len() && 0 <= j < s.len() && i != j ==> s[i].token.text() != s[j].token.text()
}

/// Whether a ticket is named by something else than `k`.
pub open spec fn ticket_not_named(k: Seq<char>) -> spec_fn(LoginTicket) -> bool {
    |t: LoginTicket| t.ticket.text() != k
}

/// Whether a ticket is still valid at `now`.
pub open spec fn ticket_live(now: i64) -> spec_fn(LoginTicket) -> bool {
    |t: LoginTicket| t.expires_at > now
}

/// Whether a ticket named `k` is stored.
pub open spec fn has_login_ticket(s: Seq<LoginTicket>, k: Seq<char>) -> bool {
    exists|i: int| 0 <= i < s.len() && #[trigger] s[i].ticket.text() == k
}

/// No two tickets share a token.
pub open spec fn tickets_unique(s: Seq<LoginTicket>) -> bool {
    forall|i: int, j: int|
        0 <= i < s.len() && 0 <= j < s.len() && i != j ==> s[i].ticket.text() != s[j].ticket.text()
}

/// Sessions and login tickets in memory.
pub struct InMemorySessionRepository {
    sessions: Vec<Session>,
    tickets: Vec<LoginTicket>,
}

impl InMemorySessionRepository {
    pub closed spec fn sessions(&self) -> Seq<Session> {
        self.sessions@
    }

    pub closed spec fn tickets(&self) -> Seq<LoginTicket> {
        self.tickets@
    }

    /// No two sessions, and no two tickets, share a token.
    #[verifier::type_invariant]
    spec fn wf(&self) -> bool {
        sessions_unique(self.sessions@) && tickets_unique(self.tickets@)
    }

    pub fn new() -> (r: Self)
        ensures
            r.sessions() == Seq::<Session>::empty(),
            r.tickets() == Seq::<LoginTicket>::empty(),
    {
        InMemorySessionRepository { sessions: Vec::new(), tickets: Vec::new() }
    }

    fn session_index(&self, token: &str) -> (r: Option<usize>)
        ensures
            match r {
                Some(i) => i < self.sessions().len() && self.sessions()[i as int].token.text()
                    == token@,
                None => !has_session(self.sessions(), token@),
            },
    {
        let mut i: usize = 0;
        while i < self.sessions.len()
            invariant
                i <= self.sessions@.len(),
                forall|j: int| 0 <= j < i ==> self.sessions@[j].token.text() != token@,
            decreases self.sessions@.len() - i,
        {
            if crate::text::eq_str(&self.sessions[i].token.0, token) {
                return Some(i);
            }
            i += 1;
        }
        None
    }

    /// Stores a session, replacing the one with the same token.
    pub fn save_session(&mut self, session: &Session) -> (r: Result<(), RepositoryError>)
        ensures
            r is Ok,
            final(self).sessions() == old(self).sessions().filter(
                session_not_named(session.token.text()),
            ).push(*session),
            final(self).tickets() == old(self).tickets(),
    {
        let _ = self.delete_session(&session.token);
        proof {
            use_type_invariant(&*self);
        }
        let ghost before = self.sessions@;
        let mut sessions: Vec<Session> = Vec::new();
        std::mem::swap(&mut sessions, &mut self.sessions);
        sessions.push(session.clone());
        proof {
            assert forall|i: int| 0 <= i < before.len() implies #[trigger] before[i].token.text()
                != session.token.text() by {
                assert(session_not_named(session.token.text())(before[i]));
            }
        }
        self.sessions = sessions;
        Ok(())
    }

    /// The session with the token, if stored.
    pub fn get_session(&self, token: &SessionToken) -> (r: Result<Option<Session>, RepositoryError>)
        ensures
            r matches Ok(v) && match v {
                Some(s) => self.sessions().contains(s) && s.token.text() == token.text(),
                None => !has_session(self.sessions(), token.text()),
            },
    {
        match self.session_index(token.as_str()) {
            Some(i) => Ok(Some(self.sessions[i].clone())),
            None => Ok(None),
        }
    }

    /// Forgets the session with the token; reports whether there was one.
    pub fn delete_session(&mut self, token: &SessionToken) -> (r: Result<bool, RepositoryError>)
        ensures
            r matches Ok(b) && b == has_session(old(self).sessions(), token.text()),
            final(self).sessions() == old(self).sessions().filter(session_not_named(token.text())),
            final(self).tickets() == old(self).tickets(),
    {
        proof {
            use_type_invariant(&*self);
        }
        let ghost s = self.sessions@;
        let ghost k = token.text();
        let mut kept: Vec<Session> = Vec::new();
        let mut found = false;
        let mut i: usize = 0;
        let n = self.sessions.len();
        while i < n
            invariant
                i <= n,
                n == s.len(),
                s == self.sessions@,
                self.tickets@ == old(self).tickets@,
                k == token.text(),
                kept@ == s.take(i as int).filter(session_not_named(k)),
                found == has_session(s.take(i as int), k),
            decreases n - i,
        {
            proof {
                crate::seqs::lemma_take_one_more_filter(s, i as int, session_not_named(k));
            }
            let same = crate::text::eq_str(&self.sessions[i].token.0, token.as_str());

            if same {
                found = true;
            } else {
                kept.push(self.sessions[i].clone());
            }
            proof {
                assert(s.take(i + 1)[i as int] == s[i as int]);
                assert forall|j: int| 0 <= j < i implies #[trigger] s.take(i + 1)[j] == s.take(
                    i as int,
                )[j] by {}
                if has_session(s.take(i + 1), k) && !has_session(s.take(i as int), k) {
                    let j = choose|j: int|
                        0 <= j < i + 1 && #[trigger] s.take(i + 1)[j].token.text() == k;
                    assert(j == i);
                }
            }
            i += 1;
        }
        proof {
            assert(s.take(n as int) == s);
            lemma_filter_keeps_sessions_unique(s, session_not_named(k));
        }
        self.sessions = kept;
        Ok(found)
    }

    /// The session a request's token names, if it is still valid at
    /// `now`: an unknown token and an expired session are told apart.
    pub fn validate_session_at(&self, token: &str, now: i64) -> (r: Result<
        Session,
        SessionServiceError,
    >)
        ensures
            match r {
                Ok(s) => {
                    &&& self.sessions().contains(s)
                    &&& s.token.text() == token@
                    &&& s.expires_at > now
                },
                Err(SessionServiceError::SessionNotFound) => !has_session(self.sessions(), token@),
                Err(SessionServiceError::SessionExpired) => exists|i: int|
                    0 <= i < self.sessions().len() && #[trigger] self.sessions()[i].token.text()
                        == token@ && self.sessions()[i].expires_at <= now,
                Err(_) => false,
            },
    {
        match self.session_index(token) {
            None => Err(SessionServiceError::SessionNotFound),
            Some(i) => {
                if self.sessions[i].expires_at <= now {
                    Err(SessionServiceError::SessionExpired)
                } else {
                    Ok(self.sessions[i].clone())
                }
            },
        }
    }

    /// Drops the sessions expired at `now`; returns how many were dropped.
    pub fn purge_expired_sessions(&mut self, now: i64) -> (r: Result<usize, RepositoryError>)
        ensures
            final(self).sessions() == old(self).sessions().filter(session_live(now)),
            final(self).tickets() == old(self).tickets(),
            r matches Ok(n) && n == old(self).sessions().len() - final(self).sessions().len(),
    {
        proof {
            use_type_invariant(&*self);
        }
        let ghost s = self.sessions@;
        let mut kept: Vec<Session> = Vec::new();
        let mut i: usize = 0;
        let n = self.sessions.len();
        while i < n
            invariant
                i <= n,
                n == s.len(),
                s == self.sessions@,
                self.tickets@ == old(self).tickets@,
                kept@ == s.take(i as int).filter(session_live(now)),
                kept@.len() <= i,
            decreases n - i,
        {
            proof {
                crate::seqs::lemma_take_one_more_filter(s, i as int, session_live(now));
            }
            if self.sessions[i].expires_at > now {
                kept.push(self.sessions[i].clone());
            }
            i += 1;
        }
        proof {
            assert(s.take(n as int) == s);
            lemma_filter_keeps_sessions_unique(s, session_live(now));
        }
        let removed = n - kept.len();
        self.sessions = kept;
        Ok(removed)
    }

    fn ticket_index(&self, token: &str) -> (r: Option<usize>)
        ensures
            match r {
                Some(i) => i < self.tickets().len() && self.tickets()[i as int].ticket.text()
                    == token@,
                None => !has_login_ticket(self.tickets(), token@),
            },
    {
        let mut i: usize = 0;
        while i < self.tickets.len()
            invariant
                i <= self.tickets@.len(),
                forall|j: int| 0 <= j < i ==> self.tickets@[j].ticket.text() != token@,
            decreases self.tickets@.len() - i,
        {
            if crate::text::eq_str(&self.tickets[i].ticket.0, token) {
                return Some(i);
            }
            i += 1;
        }
        None
    }

    /// Stores a login ticket, replacing the one with the same token.
    pub fn save_ticket(&mut self, ticket: &LoginTicket) -> (r: Result<(), RepositoryError>)
        ensures
            r is Ok,
            final(self).tickets() == old(self).tickets().filter(
                ticket_not_named(ticket.ticket.text()),
            ).push(*ticket),
            final(self).sessions() == old(self).sessions(),
    {
        let _ = self.remove_ticket(ticket.ticket.as_str());
        proof {
            use_type_invariant(&*self);
        }
        let ghost before = self.tickets@;
        let mut tickets: Vec<LoginTicket> = Vec::new();
        std::mem::swap(&mut tickets, &mut self.tickets);
        tickets.push(ticket.clone());
        proof {
            assert forall|i: int| 0 <= i < before.len() implies #[trigger] before[i].ticket.text()
                != ticket.ticket.text() by {
                assert(ticket_not_named(ticket.ticket.text())(before[i]));
            }
        }
        self.tickets = tickets;
        Ok(())
    }

    fn remove_ticket(&mut self, token: &str) -> (r: Option<LoginTicket>)
        ensures
            match r {
                Some(t) => old(self).tickets().contains(t) && t.ticket.text() == token@,
                None => !has_login_ticket(old(self).tickets(), token@),
            },
            final(self).tickets() == old(self).tickets().filter(ticket_not_named(token@)),
            final(self).sessions() == old(self).sessions(),
    {
        proof {
            use_type_invariant(&*self);
        }
        let ghost s = self.tickets@;
        let ghost k = token@;
        let mut kept: Vec<LoginTicket> = Vec::new();
        let mut found: Option<LoginTicket> = None;
        let mut i: usize = 0;
        let n = self.tickets.len();
        while i < n
            invariant
                i <= n,
                n == s.len(),
                s == self.tickets@,
                self.sessions@ == old(self).sessions@,
                k == token@,
                kept@ == s.take(i as int).filter(ticket_not_named(k)),
                match found {
                    Some(t) => s.contains(t) && t.ticket.text() == k,
                    None => !has_login_ticket(s.take(i as int), k),
                },
            decreases n - i,
        {
            proof {
                crate::seqs::lemma_take_one_more_filter(s, i as int, ticket_not_named(k));
            }
            let ghost was_found = found;
            if crate::text::eq_str(&self.tickets[i].ticket.0, token) {
                found = Some(self.tickets[i].clone());
                proof {
                    assert(s.contains(s[i as int]));
                }
            } else {
                kept.push(self.tickets[i].clone());
            }
            proof {
                assert(s.take(i + 1)[i as int] == s[i as int]);
                assert forall|j: int| 0 <= j < i implies #[trigger] s.take(i + 1)[j] == s.take(
                    i as int,
                )[j] by {}
                if found is None {
                    if has_login_ticket(s.take(i + 1), k) {
                        let j = choose|j: int|
                            0 <= j < i + 1 && #[trigger] s.take(i + 1)[j].ticket.text() == k;
                        assert(j == i);
                    }
                }
            }
            i += 1;
        }
        proof {
            assert(s.take(n as int) == s);
            lemma_filter_keeps_tickets_unique(s, ticket_not_named(k));
        }
        self.tickets = kept;
        found
    }

    /// Takes the login ticket with the token out of the store: a ticket
    /// can be traded once only.
    pub fn take_ticket(&mut self, ticket: &LoginTicketToken) -> (r: Result<
        Option<LoginTicket>,
        RepositoryError,
    >)
        ensures
            r matches Ok(v) && match v {
                Some(t) => old(self).tickets().contains(t) && t.ticket.text() == ticket.text(),
                None => !has_login_ticket(old(self).tickets(), ticket.text()),
            },
            final(self).tickets() == old(self).tickets().filter(ticket_not_named(ticket.text())),
            !has_login_ticket(final(self).tickets(), ticket.text()),
            final(self).sessions() == old(self).sessions(),
    {
        let r = self.remove_ticket(ticket.as_str());
        proof {
            lemma_no_ticket_after_filter(old(self).tickets(), ticket.text());
        }
        Ok(r)
    }

    /// Drops the tickets expired at `now`; returns how many were dropped.
    pub fn purge_expired_tickets(&mut self, now: i64) -> (r: Result<usize, RepositoryError>)
        ensures
            final(self).tickets() == old(self).tickets().filter(ticket_live(now)),
            final(self).sessions() == old(self).sessions(),
            r matches Ok(n) && n == old(self).tickets().len() - final(self).tickets().len(),
    {
        proof {
            use_type_invariant(&*self);
        }
        let ghost s = self.tickets@;
        let mut kept: Vec<LoginTicket> = Vec::new();
        let mut i: usize = 0;
        let n = self.tickets.len();
        while i < n
            invariant
                i <= n,
                n == s.len(),
                s == self.tickets@,
                self.sessions@ == old(self).sessions@,
                kept@ == s.take(i as int).filter(ticket_live(now)),
                kept@.len() <= i,
            decreases n - i,
        {
            proof {
                crate::seqs::lemma_take_one_more_filter(s, i as int, ticket_live(now));
            }
            if self.tickets[i].expires_at > now {
                kept.push(self.tickets[i].clone());
            }
            i += 1;
        }
        proof {
            assert(s.take(n as int) == s);
            lemma_filter_keeps_tickets_unique(s, ticket_live(now));
        }
        let removed = n - kept.len();
        self.tickets = kept;
        Ok(removed)
    }
}

/// Filtering keeps the session tokens distinct.
pub proof fn lemma_filter_keeps_sessions_unique(s: Seq<Session>, pred: spec_fn(Session) -> bool)
    requires
        sessions_unique(s),
    ensures
        sessions_unique(s.filter(pred)),
    decreases s.len(),
{
    if s.len() > 0 {
        let init = s.drop_last();
        assert(sessions_unique(init));
        lemma_filter_keeps_sessions_unique(init, pred);
        assert(s == init.push(s.last()));
        init.lemma_filter_push(s.last(), pred);
        if pred(s.last()) {
            let f = init.filter(pred);
            assert forall|i: int| 0 <= i < f.len() implies #[trigger] f[i].token.text()
                != s.last().token.text() by {
                assert(f.contains(f[i]));
                init.lemma_filter_contains_rev(pred, f[i]);
                let j = choose|j: int| 0 <= j < init.len() && init[j] == f[i];
                assert(s[j] == init[j]);
            }
        }
    }
}

/// Filtering keeps the ticket tokens distinct.
pub proof fn lemma_filter_keeps_tickets_unique(
    s: Seq<LoginTicket>,
    pred: spec_fn(LoginTicket) -> bool,
)
    requires
        tickets_unique(s),
    ensures
        tickets_unique(s.filter(pred)),
    decreases s.len(),
{
    if s.len() > 0 {
        let init = s.drop_last();
        assert(tickets_unique(init));
        lemma_filter_keeps_tickets_unique(init, pred);
        assert(s == init.push(s.last()));
        init.lemma_filter_push(s.last(), pred);
        if pred(s.last()) {
            let f = init.filter(pred);
            assert forall|i: int| 0 <= i < f.len() implies #[trigger] f[i].ticket.text()
                != s.last().ticket.text() by {
                assert(f.contains(f[i]));
                init.lemma_filter_contains_rev(pred, f[i]);
                let j = choose|j: int| 0 <= j < init.len() && init[j] == f[i];
                assert(s[j] == init[j]);
            }
        }
    }
}

/// Once the tickets named `k` are filtered out, none is left.
pub proof fn lemma_no_ticket_after_filter(s: Seq<LoginTicket>, k: Seq<char>)
    ensures
        !has_login_ticket(s.filter(ticket_not_named(k)), k),
{
    let f = s.filter(ticket_not_named(k));
    if has_login_ticket(f, k) {
        let i = choose|i: int| 0 <= i < f.len() && #[trigger] f[i].ticket.text() == k;
        s.lemma_filter_pred(ticket_not_named(k), i);
    }
}

/// A login ticket opens one session only: after it was taken, taking it
/// again finds nothing, whatever else was stored in between.
pub proof fn lemma_take_ticket_once(s: Seq<LoginTicket>, k: Seq<char>)
    ensures
        !has_login_ticket(s.filter(ticket_not_named(k)), k),
        s.filter(ticket_not_named(k)).filter(ticket_not_named(k)) == s.filter(ticket_not_named(k)),
{
    lemma_no_ticket_after_filter(s, k);
    lemma_filter_absent_ticket(s.filter(ticket_not_named(k)), k);
}

/// Filtering out an absent token changes nothing.
pub proof fn lemma_filter_absent_ticket(s: Seq<LoginTicket>, k: Seq<char>)
    requires
        !has_login_ticket(s, k),
    ensures
        s.filter(ticket_not_named(k)) == s,
    decreases s.len(),
{
    if s.len() > 0 {
        let init = s.drop_last();
        assert(!has_login_ticket(init, k)) by {
            if has_login_ticket(init, k) {
                let i = choose|i: int| 0 <= i < init.len() && #[trigger] init[i].ticket.text() == k;
                assert(s[i].ticket.text() == k);
            }
        }
        lemma_filter_absent_ticket(init, k);
        assert(s == init.push(s.last()));
        init.lemma_filter_push(s.last(), ticket_not_named(k));
        assert(s[s.len() - 1].ticket.text() != k);
    }
}

} // verus!
