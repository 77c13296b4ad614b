//! Bodies and parameters of the login and session endpoints.

use vstd::prelude::*;

use crate::auth::ExchangedToken;
use crate::clock::{rfc3339_text, to_rfc3339};
use crate::session::{LoginTicket, Session};

verus! {

/// Where to send the user to log in with Twitch.
#[derive(Debug)]
pub struct TwitchLoginStartResponse {
    pub auth_url: String,
}

/// What Twitch hands the login callback.
#[derive(Debug)]
pub struct TwitchLoginCallbackQuery {
    pub code: String,
    pub state: String,
}

/// The login ticket minted for who logged in.
#[derive(Debug)]
pub struct TwitchLoginCallbackResponse {
    pub ticket: String,
    pub twitch_user_id: String,
    pub twitch_user_name: Option<String>,
}

impl TwitchLoginCallbackResponse {
    pub fn from(exchanged: &ExchangedToken, ticket: &LoginTicket) -> (r: Self)
        ensures
            r.ticket@ == ticket.ticket.text(),
            r.twitch_user_id@ == exchanged.user_id@,
            r.twitch_user_name == exchanged.user_name,
    {
        TwitchLoginCallbackResponse {
            ticket: ticket.ticket.as_str().to_owned(),
            twitch_user_id: exchanged.user_id.clone(),
            twitch_user_name: match &exchanged.user_name {
                Some(n) => Some(n.clone()),
                None => None,
            },
        }
    }
}

/// A request to trade a login ticket for a session.
#[derive(Debug)]
pub struct CreateSessionRequest {
    pub ticket: String,
}

/// The signed-in user.
#[derive(Debug)]
pub struct SessionResponse {
    pub twitch_user_id: String,
    pub twitch_user_name: Option<String>,
    pub is_root: bool,
    pub expires_at: String,
}

impl SessionResponse {
    pub fn from(session: &Session, is_root: bool) -> (r: Self)
        ensures
            r.twitch_user_id@ == session.twitch_user_id@,
            r.twitch_user_name == session.twitch_user_name,
            r.is_root == is_root,
            r.expires_at@ == rfc3339_text(session.expires_at),
    {
        SessionResponse {
            twitch_user_id: session.twitch_user_id.clone(),
            twitch_user_name: match &session.twitch_user_name {
                Some(n) => Some(n.clone()),
                None => None,
            },
            is_root,
            expires_at: to_rfc3339(session.expires_at),
        }
    }
}

/// The refusal of a request without a valid session.
#[derive(Debug)]
pub struct Unauthorized;

impl Unauthorized {
    /// The HTTP status of the refusal.
    pub fn status_code(&self) -> (r: u16)
        ensures
            r == 401,
    {
        401
    }
}

} // verus!
