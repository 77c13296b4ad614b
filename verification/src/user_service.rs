//! User management by platform name: the users, their accounts and the
//! platforms the accounts live on.

use vstd::prelude::*;

use crate::api::users::{
    name_of_platform, resolve_user_platforms, shows_link, to_user_response, UserResponse,
};
use crate::clock::rfc3339_text;
use crate::error::{RepositoryError, UserServiceError};
use crate::ids::{PlatformId, UserId};
use crate::user::{
    account_linked, account_position, not_owned_by, not_user_link, other_users, platform_named,
    touched, user_link_position, user_lookup, user_position, InMemoryPlatformRepository,
    InMemoryUserRepository, Platform, User, UserPlatform, owned_by,
};

verus! {

/// The id of the platform called `name`, or the refusal of an unknown
/// platform.
pub open spec fn platform_id_of(platforms: Seq<Platform>, name: Seq<char>) -> Option<PlatformId> {
    match platform_named(platforms, name) {
        Some(p) => Some(p.id),
        None => None,
    }
}

/// Users and their platform accounts, addressed by platform name.
pub struct UserService {
    pub users: InMemoryUserRepository,
    pub platforms: InMemoryPlatformRepository,
    /// The user anonymous entries are queued under, once made.
    pub guest: Option<UserId>,
}

/// The user anonymous queue entries belong to: the remembered guest while
/// that user still exists, else the user created next.
pub open spec fn guest_choice(guest: Option<UserId>, users: Seq<User>, next_user_id: u32) -> UserId {
    match guest {
        Some(g) => if user_position(users, g) is Some {
            g
        } else {
            UserId(next_user_id)
        },
        None => UserId(next_user_id),
    }
}

/// Whether the guest is remembered and still exists.
pub open spec fn guest_present(guest: Option<UserId>, users: Seq<User>) -> bool {
    guest matches Some(g) && user_position(users, g) is Some
}

/// The display name a guest user is created with.
pub open spec fn guest_name() -> Seq<char> {
    "Guest"@
}

/// Wraps a repository failure.
fn repo_error(e: RepositoryError) -> (r: UserServiceError)
    ensures
        r == UserServiceError::Repo(e),
{
    UserServiceError::Repo(e)
}

impl UserService {
    pub fn new(users: InMemoryUserRepository, platforms: InMemoryPlatformRepository) -> (r: Self)
        ensures
            r.users == users,
            r.platforms == platforms,
            r.guest is None,
    {
        UserService { users, platforms, guest: None }
    }

    /// The guest user anonymous entries are queued under, created on first
    /// use (named `Guest`) and reused while it exists.
    pub fn guest_user_id(&mut self) -> (r: Result<UserId, UserServiceError>)
        ensures
            final(self).platforms == old(self).platforms,
            r == Ok::<UserId, UserServiceError>(
                guest_choice(old(self).guest, old(self).users.users(), old(self).users.next_user_id()),
            ),
            final(self).guest == Some(r->Ok_0),
            guest_present(old(self).guest, old(self).users.users()) ==> final(self).users
                == old(self).users,
            !guest_present(old(self).guest, old(self).users.users()) ==> {
                &&& final(self).users.users().len() == old(self).users.users().len() + 1
                &&& final(self).users.users().drop_last() == old(self).users.users()
                &&& final(self).users.users().last().id == r->Ok_0
                &&& final(self).users.users().last().display_name@ == guest_name()
                &&& final(self).users.links() == old(self).users.links()
                &&& final(self).users.next_user_id() == old(self).users.next_user_id().wrapping_add(1)
                &&& final(self).users.next_link_id() == old(self).users.next_link_id()
            },
    {
        if let Some(g) = self.guest {
            match self.users.get_by_id(g) {
                Ok(Some(_)) => return Ok(g),
                _ => {},
            }
        }
        match self.users.create("Guest") {
            Ok(u) => {
                proof {
                    reveal_strlit("Guest");
                    assert(self.users.users().drop_last() =~= old(self).users.users());
                }
                self.guest = Some(u.id);
                Ok(u.id)
            },
            Err(e) => Err(repo_error(e)),
        }
    }

    /// The id of the platform called `name`; `UnknownPlatform` when there
    /// is none.
    pub fn platform_id(&self, name: &str) -> (r: Result<PlatformId, UserServiceError>)
        ensures
            match platform_id_of(self.platforms.platforms(), name@) {
                Some(id) => r == Ok::<PlatformId, UserServiceError>(id),
                None => r matches Err(UserServiceError::UnknownPlatform(n)) && n@ == name@,
            },
    {
        match self.platforms.find_by_name(name) {
            Ok(Some(p)) => Ok(p.id),
            Ok(None) => Err(UserServiceError::UnknownPlatform(name.to_owned())),
            Err(e) => Err(repo_error(e)),
        }
    }

    /// Every platform, in their order.
    pub fn list_platforms(&self) -> (r: Result<Vec<Platform>, UserServiceError>)
        ensures
            r matches Ok(v) && v@ == self.platforms.platforms(),
    {
        match self.platforms.load_all() {
            Ok(v) => Ok(v),
            Err(e) => Err(repo_error(e)),
        }
    }

    /// Adds a user.
    pub fn create(&mut self, display_name: &str) -> (r: Result<User, UserServiceError>)
        ensures
            r matches Ok(u) && {
                &&& u.id.0 == old(self).users.next_user_id()
                &&& u.display_name@ == display_name@
                &&& u.created_at == u.updated_at
                &&& final(self).users.users() == old(self).users.users().push(u)
            },
            final(self).users.links() == old(self).users.links(),
            final(self).users.next_user_id() == old(self).users.next_user_id().wrapping_add(1),
            final(self).users.next_link_id() == old(self).users.next_link_id(),
            final(self).platforms == old(self).platforms,
    {
        match self.users.create(display_name) {
            Ok(u) => Ok(u),
            Err(e) => Err(repo_error(e)),
        }
    }

    /// The user `id`, if any.
    pub fn get_user(&self, id: UserId) -> (r: Result<Option<User>, UserServiceError>)
        ensures
            r matches Ok(o) && o == user_lookup(self.users.users(), id),
    {
        match self.users.get_by_id(id) {
            Ok(o) => Ok(o),
            Err(e) => Err(repo_error(e)),
        }
    }

    /// The accounts of user `id`, in the order they were linked.
    pub fn get_platforms(&self, id: UserId) -> (r: Result<Vec<UserPlatform>, UserServiceError>)
        ensures
            r matches Ok(v) && v@ == self.users.links().filter(owned_by(id)),
    {
        match self.users.get_platforms(id) {
            Ok(v) => Ok(v),
            Err(e) => Err(repo_error(e)),
        }
    }

    /// User `id` with each of their accounts under its platform's name;
    /// `UserNotFound` when there is no such user.
    pub fn user_response(&self, id: UserId) -> (r: Result<UserResponse, UserServiceError>)
        ensures
            match user_lookup(self.users.users(), id) {
                None => r matches Err(UserServiceError::UserNotFound),
                Some(u) => r matches Ok(resp) && {
                    let links = self.users.links().filter(owned_by(id));
                    &&& resp.id == u.id
                    &&& resp.display_name == u.display_name
                    &&& resp.created_at@ == rfc3339_text(u.created_at)
                    &&& resp.updated_at@ == rfc3339_text(u.updated_at)
                    &&& resp.platforms@.len() == links.len()
                    &&& forall|i: int|
                        0 <= i < links.len() ==> shows_link(
                            #[trigger] resp.platforms@[i],
                            links[i],
                            name_of_platform(self.platforms.platforms(), links[i].platform_id),
                        )
                },
            },
    {
        let user = match self.get_user(id) {
            Ok(Some(u)) => u,
            Ok(None) => return Err(UserServiceError::UserNotFound),
            Err(e) => return Err(e),
        };
        let links = match self.get_platforms(id) {
            Ok(v) => v,
            Err(e) => return Err(e),
        };
        let all = match self.list_platforms() {
            Ok(v) => v,
            Err(e) => return Err(e),
        };
        let platforms = resolve_user_platforms(links, &all);
        Ok(to_user_response(user, platforms))
    }

    /// The user of the account `platform_user_id` on the platform called
    /// `platform`; `UnknownPlatform` when there is no such platform.
    pub fn find_by_platform(&self, platform: &str, platform_user_id: &str) -> (r: Result<
        Option<User>,
        UserServiceError,
    >)
        ensures
            match platform_id_of(self.platforms.platforms(), platform@) {
                None => r matches Err(UserServiceError::UnknownPlatform(n)) && n@ == platform@,
                Some(pid) => r matches Ok(o) && match account_position(
                    self.users.links(),
                    pid,
                    platform_user_id@,
                ) {
                    Some(i) => o == user_lookup(self.users.users(), self.users.links()[i].user_id),
                    None => o is None,
                },
            },
    {
        let pid = match self.platform_id(platform) {
            Ok(pid) => pid,
            Err(e) => return Err(e),
        };
        match self.users.find_by_platform(pid, platform_user_id) {
            Ok(o) => Ok(o),
            Err(e) => Err(repo_error(e)),
        }
    }

    /// Renames user `id`; `UserNotFound` when there is none.
    pub fn update_user(&mut self, id: UserId, display_name: &str) -> (r: Result<User, UserServiceError>)
        ensures
            final(self).platforms == old(self).platforms,
            final(self).users.links() == old(self).users.links(),
            final(self).users.next_user_id() == old(self).users.next_user_id(),
            final(self).users.next_link_id() == old(self).users.next_link_id(),
            match user_position(old(self).users.users(), id) {
                None => r matches Err(UserServiceError::UserNotFound) && final(self).users.users()
                    == old(self).users.users(),
                Some(i) => r matches Ok(u) && {
                    &&& u == (User {
                        display_name: u.display_name,
                        updated_at: u.updated_at,
                        ..old(self).users.users()[i]
                    })
                    &&& u.display_name@ == display_name@
                    &&& final(self).users.users() == old(self).users.users().update(i, u)
                },
            },
    {
        match self.users.update_display_name(id, display_name) {
            Ok(Some(u)) => Ok(u),
            Ok(None) => Err(UserServiceError::UserNotFound),
            Err(e) => Err(repo_error(e)),
        }
    }

    /// Removes user `id` and their accounts; `UserNotFound` when there is
    /// none.
    pub fn delete_user(&mut self, id: UserId) -> (r: Result<(), UserServiceError>)
        ensures
            final(self).platforms == old(self).platforms,
            final(self).users.users() == old(self).users.users().filter(other_users(id)),
            final(self).users.next_user_id() == old(self).users.next_user_id(),
            final(self).users.next_link_id() == old(self).users.next_link_id(),
            user_position(old(self).users.users(), id) is None ==> {
                &&& r matches Err(UserServiceError::UserNotFound)
                &&& final(self).users.links() == old(self).users.links()
            },
            user_position(old(self).users.users(), id) is Some ==> {
                &&& r is Ok
                &&& final(self).users.links() == old(self).users.links().filter(not_owned_by(id))
            },
            old(self).users.accounts_unique() ==> final(self).users.accounts_unique(),
    {
        match self.users.delete_user(id) {
            Ok(true) => Ok(()),
            Ok(false) => Err(UserServiceError::UserNotFound),
            Err(e) => Err(repo_error(e)),
        }
    }

    /// Links the account `platform_user_id` on the platform called
    /// `platform` to user `id`. Refused, in this order: an unknown
    /// platform, an unknown user, an account linked already (a conflict).
    pub fn link_platform(
        &mut self,
        id: UserId,
        platform: &str,
        platform_user_id: &str,
        platform_username: &str,
    ) -> (r: Result<UserPlatform, UserServiceError>)
        ensures
            final(self).platforms == old(self).platforms,
            final(self).users.next_user_id() == old(self).users.next_user_id(),
            old(self).users.accounts_unique() ==> final(self).users.accounts_unique(),
            match platform_id_of(old(self).platforms.platforms(), platform@) {
                None => {
                    &&& r matches Err(UserServiceError::UnknownPlatform(n)) && n@ == platform@
                    &&& final(self).users == old(self).users
                },
                Some(pid) => if user_position(old(self).users.users(), id) is None {
                    &&& r matches Err(UserServiceError::UserNotFound)
                    &&& final(self).users == old(self).users
                } else if account_linked(old(self).users.links(), pid, platform_user_id@) {
                    &&& r matches Err(UserServiceError::Repo(RepositoryError::Conflict(m)))
                        && m@ == "platform_user_id already linked to another user"@
                    &&& final(self).users.users() == old(self).users.users()
                    &&& final(self).users.links() == old(self).users.links()
                    &&& final(self).users.next_link_id() == old(self).users.next_link_id()
                } else {
                    &&& r matches Ok(l) && {
                        &&& l.id.0 == old(self).users.next_link_id()
                        &&& l.user_id == id
                        &&& l.platform_id == pid
                        &&& l.platform_user_id@ == platform_user_id@
                        &&& l.platform_username@ == platform_username@
                        &&& final(self).users.links() == old(self).users.links().push(l)
                    }
                    &&& touched(old(self).users.users(), final(self).users.users(), id)
                    &&& final(self).users.next_link_id() == old(
                        self,
                    ).users.next_link_id().wrapping_add(1)
                },
            },
    {
        let pid = match self.platform_id(platform) {
            Ok(pid) => pid,
            Err(e) => return Err(e),
        };
        match self.users.get_by_id(id) {
            Ok(Some(_)) => {},
            Ok(None) => return Err(UserServiceError::UserNotFound),
            Err(e) => return Err(repo_error(e)),
        }
        match self.users.link_platform(id, pid, platform_user_id, platform_username) {
            Ok(l) => Ok(l),
            Err(e) => Err(repo_error(e)),
        }
    }

    /// Renames the account of user `id` on the platform called `platform`.
    /// Refused, in this order: an unknown platform, no such account.
    pub fn update_platform_username(
        &mut self,
        id: UserId,
        platform: &str,
        platform_username: &str,
    ) -> (r: Result<UserPlatform, UserServiceError>)
        ensures
            final(self).platforms == old(self).platforms,
            final(self).users.next_user_id() == old(self).users.next_user_id(),
            final(self).users.next_link_id() == old(self).users.next_link_id(),
            old(self).users.accounts_unique() ==> final(self).users.accounts_unique(),
            match platform_id_of(old(self).platforms.platforms(), platform@) {
                None => {
                    &&& r matches Err(UserServiceError::UnknownPlatform(n)) && n@ == platform@
                    &&& final(self).users == old(self).users
                },
                Some(pid) => match user_link_position(old(self).users.links(), id, pid) {
                    None => {
                        &&& r matches Err(UserServiceError::PlatformLinkNotFound)
                        &&& final(self).users.links() == old(self).users.links()
                        &&& final(self).users.users() == old(self).users.users()
                    },
                    Some(i) => r matches Ok(l) && {
                        &&& l == (UserPlatform {
                            platform_username: l.platform_username,
                            ..old(self).users.links()[i]
                        })
                        &&& l.platform_username@ == platform_username@
                        &&& final(self).users.links() == old(self).users.links().update(i, l)
                        &&& touched(old(self).users.users(), final(self).users.users(), id)
                    },
                },
            },
    {
        let pid = match self.platform_id(platform) {
            Ok(pid) => pid,
            Err(e) => return Err(e),
        };
        match self.users.update_platform_username(id, pid, platform_username) {
            Ok(Some(l)) => Ok(l),
            Ok(None) => Err(UserServiceError::PlatformLinkNotFound),
            Err(e) => Err(repo_error(e)),
        }
    }

    /// Unlinks the account of user `id` on the platform called `platform`.
    /// Refused, in this order: an unknown platform, no such account.
    pub fn delete_platform(&mut self, id: UserId, platform: &str) -> (r: Result<(), UserServiceError>)
        ensures
            final(self).platforms == old(self).platforms,
            final(self).users.next_user_id() == old(self).users.next_user_id(),
            final(self).users.next_link_id() == old(self).users.next_link_id(),
            old(self).users.accounts_unique() ==> final(self).users.accounts_unique(),
            match platform_id_of(old(self).platforms.platforms(), platform@) {
                None => {
                    &&& r matches Err(UserServiceError::UnknownPlatform(n)) && n@ == platform@
                    &&& final(self).users == old(self).users
                },
                Some(pid) => {
                    &&& final(self).users.links() == old(self).users.links().filter(
                        not_user_link(id, pid),
                    )
                    &&& user_link_position(old(self).users.links(), id, pid) is None ==> {
                        &&& r matches Err(UserServiceError::PlatformLinkNotFound)
                        &&& final(self).users.users() == old(self).users.users()
                    }
                    &&& user_link_position(old(self).users.links(), id, pid) is Some ==> {
                        &&& r is Ok
                        &&& touched(old(self).users.users(), final(self).users.users(), id)
                    }
                },
            },
    {
        let pid = match self.platform_id(platform) {
            Ok(pid) => pid,
            Err(e) => return Err(e),
        };
        match self.users.delete_platform(id, pid) {
            Ok(true) => Ok(()),
            Ok(false) => Err(UserServiceError::PlatformLinkNotFound),
            Err(e) => Err(repo_error(e)),
        }
    }
}

} // verus!

verus! {

/// Anonymous entries share one guest: once the guest is made, asking for
/// it again gives the same user while it exists.
pub proof fn lemma_guest_reused(g: UserId, users: Seq<User>, next_user_id: u32)
    requires
        user_position(users, g) is Some,
    ensures
        guest_choice(Some(g), users, next_user_id) == g,
        guest_present(Some(g), users),
{
}

} // verus!
