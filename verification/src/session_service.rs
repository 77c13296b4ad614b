//! Signing in with a login ticket, and signing out.

use vstd::prelude::*;

use crate::admin::{is_root_in, AdminService};
use crate::auth::{expiry_of, ticket_expiry};
use crate::config::LOGIN_TICKET_TTL_SECS;
use crate::error::SessionServiceError;
use crate::session::{
    has_login_ticket, has_session, session_not_named, ticket_not_named, InMemorySessionRepository,
    LoginTicket, LoginTicketToken, Session, SessionToken,
};

verus! {

/// Issues the one-time login ticket `token` for the Twitch account, valid
/// for the login-ticket lifetime from `now`.
pub fn create_login_ticket_at(
    repo: &mut InMemorySessionRepository,
    token: &str,
    twitch_user_id: &str,
    twitch_user_name: Option<&str>,
    now: i64,
) -> (r: Result<LoginTicket, SessionServiceError>)
    ensures
        final(repo).sessions() == old(repo).sessions(),
        r matches Ok(t) && {
            &&& t.ticket.text() == token@
            &&& t.twitch_user_id@ == twitch_user_id@
            &&& match twitch_user_name {
                Some(n) => t.twitch_user_name matches Some(m) && m@ == n@,
                None => t.twitch_user_name is None,
            }
            &&& t.created_at == now
            &&& t.expires_at == ticket_expiry(now, LOGIN_TICKET_TTL_SECS)
            &&& final(repo).tickets() == old(repo).tickets().filter(ticket_not_named(token@)).push(t)
        },
{
    let ticket = LoginTicket {
        ticket: LoginTicketToken::new(token),
        twitch_user_id: twitch_user_id.to_owned(),
        twitch_user_name: match twitch_user_name {
            Some(n) => Some(n.to_owned()),
            None => None,
        },
        created_at: now,
        expires_at: expiry_of(now, LOGIN_TICKET_TTL_SECS),
    };
    match repo.save_ticket(&ticket) {
        Ok(()) => Ok(ticket),
        Err(e) => Err(SessionServiceError::Repo(e)),
    }
}

/// Whether the ticket the browser holds is the one it presents.
pub open spec fn ticket_matches(cookie_ticket: Option<&str>, ticket: Seq<char>) -> bool {
    cookie_ticket matches Some(c) && c@ == ticket
}

/// Trades a login ticket for a session named `session_token`, valid for
/// `ttl_secs` from `now`, and says whether its account is the root admin.
/// The ticket must be the one the browser's cookie holds, stored, and not
/// expired; else `InvalidTicket`. A presented ticket is used up either way.
pub fn login_at(
    repo: &mut InMemorySessionRepository,
    admins: &AdminService,
    cookie_ticket: Option<&str>,
    ticket: &str,
    session_token: &str,
    ttl_secs: u64,
    now: i64,
) -> (r: Result<(Session, bool), SessionServiceError>)
    ensures
        !ticket_matches(cookie_ticket, ticket@) ==> {
            &&& r matches Err(SessionServiceError::InvalidTicket)
            &&& *final(repo) == *old(repo)
        },
        ticket_matches(cookie_ticket, ticket@) ==> {
            &&& final(repo).tickets() == old(repo).tickets().filter(ticket_not_named(ticket@))
            &&& !has_login_ticket(old(repo).tickets(), ticket@) ==> {
                &&& r matches Err(SessionServiceError::InvalidTicket)
                &&& final(repo).sessions() == old(repo).sessions()
            }
            &&& has_login_ticket(old(repo).tickets(), ticket@) ==> (exists|t: LoginTicket| {
                &&& old(repo).tickets().contains(t)
                &&& t.ticket.text() == ticket@
                &&& t.expires_at <= now ==> {
                    &&& r matches Err(SessionServiceError::InvalidTicket)
                    &&& final(repo).sessions() == old(repo).sessions()
                }
                &&& t.expires_at > now ==> (r matches Ok((s, root)) && {
                    &&& s.token.text() == session_token@
                    &&& s.twitch_user_id == t.twitch_user_id
                    &&& s.twitch_user_name == t.twitch_user_name
                    &&& s.created_at == now
                    &&& s.expires_at == ticket_expiry(now, ttl_secs)
                    &&& root == is_root_in(admins.admins(), t.twitch_user_id@)
                    &&& final(repo).sessions() == old(repo).sessions().filter(
                        session_not_named(session_token@),
                    ).push(s)
                })
            })
        },
{
    let matches = match cookie_ticket {
        Some(c) => crate::text::eq_str(&c.to_owned(), ticket),
        None => false,
    };
    if !matches {
        return Err(SessionServiceError::InvalidTicket);
    }
    let taken = match repo.take_ticket(&LoginTicketToken::new(ticket)) {
        Ok(v) => v,
        Err(e) => return Err(SessionServiceError::Repo(e)),
    };
    let t = match taken {
        Some(t) => t,
        None => return Err(SessionServiceError::InvalidTicket),
    };
    if t.expires_at <= now {
        return Err(SessionServiceError::InvalidTicket);
    }
    let session = Session {
        token: SessionToken::new(session_token),
        twitch_user_id: t.twitch_user_id.clone(),
        twitch_user_name: match &t.twitch_user_name {
            Some(n) => Some(n.clone()),
            None => None,
        },
        created_at: now,
        expires_at: expiry_of(now, ttl_secs),
    };
    let root = match admins.is_root(&t.twitch_user_id) {
        Ok(b) => b,
        Err(_) => false,
    };
    match repo.save_session(&session) {
        Ok(()) => Ok((session, root)),
        Err(e) => Err(SessionServiceError::Repo(e)),
    }
}

/// Ends the session named `token`; `SessionNotFound` when there is none.
pub fn logout(repo: &mut InMemorySessionRepository, token: &str) -> (r: Result<(), SessionServiceError>)
    ensures
        final(repo).sessions() == old(repo).sessions().filter(session_not_named(token@)),
        final(repo).tickets() == old(repo).tickets(),
        has_session(old(repo).sessions(), token@) ==> r is Ok,
        !has_session(old(repo).sessions(), token@) ==> r matches Err(SessionServiceError::SessionNotFound),
{
    match repo.delete_session(&SessionToken::new(token)) {
        Ok(true) => Ok(()),
        Ok(false) => Err(SessionServiceError::SessionNotFound),
        Err(e) => Err(SessionServiceError::Repo(e)),
    }
}

} // verus!
