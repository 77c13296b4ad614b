//! Carrying out an action that fired: queueing the viewer for a spin, or
//! composing the chat reply that the server then sends.

use std::sync::Arc;

use vstd::prelude::*;

use crate::action::{render, render_spec, ActionEvent, ActionKind};
use crate::config::TwitchConfig;
use crate::error::{ExecutorError, QueueServiceError, UserServiceError};
use crate::ids::UserId;
use crate::queue::{InMemoryQueueRepository, QueueStatus};
use crate::user::{account_position, user_lookup, InMemoryUserRepository};

verus! {

/// A chat message to send in the broadcaster's channel.
#[derive(Debug)]
pub struct ChatReply {
    pub broadcaster_id: String,
    pub message: String,
}

/// Whether the account is linked to `uid` in the links.
pub open spec fn linked_to(users: InMemoryUserRepository, event: ActionEvent, uid: UserId) -> bool {
    match account_position(users.links(), event.source.platform, event.ctx.user_id@) {
        Some(i) => users.links()[i].user_id == uid,
        None => false,
    }
}

/// A viewer whose account is linked to an existing user is that user,
/// and nothing changes.
pub open spec fn reuses_user(
    before: InMemoryUserRepository,
    after: InMemoryUserRepository,
    event: ActionEvent,
    r: Result<UserId, ExecutorError>,
) -> bool {
    match account_position(before.links(), event.source.platform, event.ctx.user_id@) {
        Some(i) => user_lookup(before.users(), before.links()[i].user_id) is Some ==> {
            &&& r == Ok::<UserId, ExecutorError>(before.links()[i].user_id)
            &&& after == before
        },
        None => true,
    }
}

/// A viewer seen for the first time becomes one more user, named after
/// them.
pub open spec fn creates_user(
    before: InMemoryUserRepository,
    after: InMemoryUserRepository,
    event: ActionEvent,
    r: Result<UserId, ExecutorError>,
) -> bool {
    account_position(before.links(), event.source.platform, event.ctx.user_id@) is None ==> (
    r matches Ok(uid) && {
        &&& after.users().len() == before.users().len() + 1
        &&& after.users().last().id == uid
        &&& after.users().last().display_name@ == event.ctx.user_name@
    })
}

/// Carries out actions against the queue and the users.
pub struct ActionExecutor {
    chat_enabled: bool,
    broadcaster_id: String,
}

impl ActionExecutor {
    pub closed spec fn chat_enabled(&self) -> bool {
        self.chat_enabled
    }

    pub closed spec fn broadcaster_id(&self) -> Seq<char> {
        self.broadcaster_id@
    }

    /// An executor. Chat replies can be sent only when `chat_enabled` (the
    /// Twitch credentials are available); they go to the broadcaster of the
    /// Twitch settings, or to an empty channel id without them.
    pub fn new(chat_enabled: bool, twitch_config: Option<Arc<TwitchConfig>>) -> (r: Self)
        ensures
            r.chat_enabled() == chat_enabled,
            r.broadcaster_id() == match twitch_config {
                Some(c) => c.broadcaster_id@,
                None => Seq::<char>::empty(),
            },
    {
        let broadcaster_id = match &twitch_config {
            Some(c) => c.broadcaster_id.clone(),
            None => String::new(),
        };
        ActionExecutor { chat_enabled, broadcaster_id }
    }

    /// The user linked to the event's account; a viewer seen for the first
    /// time becomes a user named after them, linked to the account.
    fn ensure_user(users: &mut InMemoryUserRepository, event: &ActionEvent) -> (r: Result<
        UserId,
        ExecutorError,
    >)
        ensures
            r matches Ok(uid) ==> linked_to(*final(users), *event, uid),
            reuses_user(*old(users), *final(users), *event, r),
            creates_user(*old(users), *final(users), *event, r),
            old(users).accounts_unique() ==> final(users).accounts_unique(),
    {
        let platform = event.source.platform;
        let found = match users.find_by_platform(platform, event.ctx.user_id.as_str()) {
            Ok(v) => v,
            Err(e) => {
                return Err(ExecutorError::User(UserServiceError::Repo(e)));
            },
        };
        match found {
            Some(u) => {
                proof {
                    let i = account_position(users.links(), platform, event.ctx.user_id@);
                    crate::user::lemma_user_lookup_id(users.users(), users.links()[i->0].user_id);
                }
                Ok(u.id)
            },
            None => {
                let ghost before_links = users.links();
                let user = match users.create(event.ctx.user_name.as_str()) {
                    Ok(u) => u,
                    Err(e) => {
                        return Err(ExecutorError::User(UserServiceError::Repo(e)));
                    },
                };
                match users.link_platform(
                    user.id,
                    platform,
                    event.ctx.user_id.as_str(),
                    event.ctx.user_name.as_str(),
                ) {
                    Ok(link) => {
                        proof {
                            crate::user::lemma_last_link_position(
                                before_links,
                                link,
                                platform,
                                event.ctx.user_id@,
                            );
                            let n = old(users).users().len() as int;
                            assert(users.users()[n].id == user.id);
                        }
                        Ok(user.id)
                    },
                    Err(e) => Err(ExecutorError::User(UserServiceError::Repo(e))),
                }
            },
        }
    }

    /// Carries out the action of an event. Nothing happens for no action;
    /// a spin request queues the viewer (found by their account, or
    /// created); a chat reply is rendered and handed back for sending,
    /// which needs the Twitch credentials.
    pub fn execute(
        &self,
        queue: &mut InMemoryQueueRepository,
        users: &mut InMemoryUserRepository,
        event: &ActionEvent,
    ) -> (r: Result<Option<ChatReply>, ExecutorError>)
        ensures
            match event.kind {
                ActionKind::NoAction => {
                    &&& r matches Ok(None)
                    &&& *final(queue) == *old(queue)
                    &&& *final(users) == *old(users)
                },
                ActionKind::ChatReply { message_template } => {
                    &&& *final(queue) == *old(queue)
                    &&& *final(users) == *old(users)
                    &&& if self.chat_enabled() {
                        r matches Ok(Some(m)) && m.message@ == render_spec(
                            message_template@,
                            event.ctx,
                        ) && m.broadcaster_id@ == self.broadcaster_id()
                    } else {
                        r matches Err(ExecutorError::Chat(s)) && s@ == "twitch is not configured"@
                    }
                },
                ActionKind::EnqueueRoulette => match r {
                    Ok(m) => {
                        &&& m is None
                        &&& final(queue).entries().len() == old(queue).entries().len() + 1
                        &&& final(queue).entries().drop_last() == old(queue).entries()
                        &&& ({
                            let e = final(queue).entries().last();
                            &&& linked_to(*final(users), *event, e.user_id)
                            &&& e.user_name@ == event.ctx.user_name@
                            &&& e.status == QueueStatus::Pending
                        })
                    },
                    Err(_) => *final(queue) == *old(queue),
                },
            },
            event.kind is EnqueueRoulette ==> match account_position(
                old(users).links(),
                event.source.platform,
                event.ctx.user_id@,
            ) {
                Some(i) => user_lookup(old(users).users(), old(users).links()[i].user_id) is Some ==> {
                    &&& r is Ok
                    &&& *final(users) == *old(users)
                    &&& final(queue).entries().last().user_id == old(users).links()[i].user_id
                },
                None => {
                    &&& r is Ok
                    &&& final(users).users().len() == old(users).users().len() + 1
                    &&& final(users).users().last().display_name@ == event.ctx.user_name@
                    &&& final(queue).entries().last().user_id == final(users).users().last().id
                },
            },
            old(users).accounts_unique() ==> final(users).accounts_unique(),
            old(queue).wf() && old(queue).next_id() < u32::MAX ==> final(queue).wf(),
    {
        match &event.kind {
            ActionKind::NoAction => Ok(None),
            ActionKind::EnqueueRoulette => {
                let user_id = match Self::ensure_user(users, event) {
                    Ok(u) => u,
                    Err(e) => {
                        return Err(e);
                    },
                };
                match queue.enqueue(user_id, event.ctx.user_name.as_str()) {
                    Ok(_) => Ok(None),
                    Err(e) => Err(ExecutorError::Queue(QueueServiceError::Repo(e))),
                }
            },
            ActionKind::ChatReply { message_template } => {
                let message = render(message_template.as_str(), &event.ctx);
                if !self.chat_enabled {
                    return Err(ExecutorError::Chat(String::from_str("twitch is not configured")));
                }
                Ok(Some(ChatReply { broadcaster_id: self.broadcaster_id.clone(), message }))
            },
        }
    }
}

} // verus!
