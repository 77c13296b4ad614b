//! Users, their links to streaming platforms, the platforms, and the
//! in-memory repositories that hold them.

use vstd::prelude::*;

use crate::clock::now_micros;
use crate::error::RepositoryError;
use crate::ids::{PlatformId, UserId, UserPlatformId};
use crate::text::eq_str;

verus! {

broadcast use vstd::seq_lib::group_seq_properties, vstd::seq::group_seq_axioms;

/// A viewer known to the backend.
#[derive(Debug)]
pub struct User {
    pub id: UserId,
    pub display_name: String,
    pub created_at: i64,
    pub updated_at: i64,
}

impl Clone for User {
    fn clone(&self) -> (r: Self)
        ensures
            r == *self,
    {
        User {
            id: self.id,
            display_name: self.display_name.clone(),
            created_at: self.created_at,
            updated_at: self.updated_at,
        }
    }
}

/// The link of a user to an account on a platform.
#[derive(Debug)]
pub struct UserPlatform {
    pub id: UserPlatformId,
    pub user_id: UserId,
    pub platform_id: PlatformId,
    pub platform_user_id: String,
    pub platform_username: String,
}

impl Clone for UserPlatform {
    fn clone(&self) -> (r: Self)
        ensures
            r == *self,
    {
        UserPlatform {
            id: self.id,
            user_id: self.user_id,
            platform_id: self.platform_id,
            platform_user_id: self.platform_user_id.clone(),
            platform_username: self.platform_username.clone(),
        }
    }
}

/// `i` is the first position of `s` holding the user `id`.
pub open spec fn is_first_user(s: Seq<User>, id: UserId, i: int) -> bool {
    &&& 0 <= i < s.len()
    &&& s[i].id == id
    &&& forall|j: int| 0 <= j < i ==> s[j].id != id
}

/// Position of the first user with identifier `id`.
pub open spec fn user_position(s: Seq<User>, id: UserId) -> Option<int> {
    if exists|i: int| 0 <= i < s.len() && s[i].id == id {
        Some(choose|i: int| is_first_user(s, id, i))
    } else {
        None
    }
}

/// The first user with identifier `id`.
pub open spec fn user_lookup(s: Seq<User>, id: UserId) -> Option<User> {
    match user_position(s, id) {
        Some(i) => Some(s[i]),
        None => None,
    }
}

/// Whether link `l` is the account `platform_user_id` on `platform_id`.
pub open spec fn is_account(l: UserPlatform, platform_id: PlatformId, platform_user_id: Seq<char>) -> bool {
    l.platform_id == platform_id && l.platform_user_id@ == platform_user_id
}

/// `i` is the first position of `s` linking the account.
pub open spec fn is_first_account(
    s: Seq<UserPlatform>,
    platform_id: PlatformId,
    platform_user_id: Seq<char>,
    i: int,
) -> bool {
    &&& 0 <= i < s.len()
    &&& is_account(s[i], platform_id, platform_user_id)
    &&& forall|j: int| 0 <= j < i ==> !is_account(s[j], platform_id, platform_user_id)
}

pub open spec fn account_linked(s: Seq<UserPlatform>, platform_id: PlatformId, platform_user_id: Seq<char>) -> bool {
    exists|i: int| 0 <= i < s.len() && is_account(s[i], platform_id, platform_user_id)
}

/// Position of the first link of the account.
pub open spec fn account_position(
    s: Seq<UserPlatform>,
    platform_id: PlatformId,
    platform_user_id: Seq<char>,
) -> Option<int> {
    if account_linked(s, platform_id, platform_user_id) {
        Some(choose|i: int| is_first_account(s, platform_id, platform_user_id, i))
    } else {
        None
    }
}

/// Whether link `l` ties user `user_id` to platform `platform_id`.
pub open spec fn links_user_on(l: UserPlatform, user_id: UserId, platform_id: PlatformId) -> bool {
    l.user_id == user_id && l.platform_id == platform_id
}

/// `i` is the first position of `s` tying the user to the platform.
pub open spec fn is_first_user_link(s: Seq<UserPlatform>, user_id: UserId, platform_id: PlatformId, i: int) -> bool {
    &&& 0 <= i < s.len()
    &&& links_user_on(s[i], user_id, platform_id)
    &&& forall|j: int| 0 <= j < i ==> !links_user_on(s[j], user_id, platform_id)
}

/// Position of the first link tying the user to the platform.
pub open spec fn user_link_position(s: Seq<UserPlatform>, user_id: UserId, platform_id: PlatformId) -> Option<int> {
    if exists|i: int| 0 <= i < s.len() && links_user_on(s[i], user_id, platform_id) {
        Some(choose|i: int| is_first_user_link(s, user_id, platform_id, i))
    } else {
        None
    }
}

/// No account is linked twice in `s`.
pub open spec fn accounts_unique_in(s: Seq<UserPlatform>) -> bool {
    forall|i: int, j: int|
        0 <= i < j < s.len() ==> !is_account(s[j], s[i].platform_id, s[i].platform_user_id@)
}

/// Links that belong to user `user_id`.
pub open spec fn owned_by(user_id: UserId) -> spec_fn(UserPlatform) -> bool {
    |l: UserPlatform| l.user_id == user_id
}

/// Links that do not belong to user `user_id`.
pub open spec fn not_owned_by(user_id: UserId) -> spec_fn(UserPlatform) -> bool {
    |l: UserPlatform| l.user_id != user_id
}

/// Links other than those tying the user to the platform.
pub open spec fn not_user_link(user_id: UserId, platform_id: PlatformId) -> spec_fn(UserPlatform) -> bool {
    |l: UserPlatform| !links_user_on(l, user_id, platform_id)
}

/// Users other than `id`.
pub open spec fn other_users(id: UserId) -> spec_fn(User) -> bool {
    |u: User| u.id != id
}

/// The users after the first user `id` was touched at some time: every
/// field but `updated_at` is kept.
pub open spec fn touched(before: Seq<User>, after: Seq<User>, id: UserId) -> bool {
    &&& after.len() == before.len()
    &&& forall|i: int|
        0 <= i < before.len() && Some(i) != user_position(before, id) ==> after[i] == before[i]
    &&& forall|i: int|
        user_position(before, id) == Some(i) ==> after[i] == (User {
            updated_at: after[i].updated_at,
            ..before[i]
        })
}

/// The in-memory user store.
pub struct InMemoryUserRepository {
    users: Vec<User>,
    user_platforms: Vec<UserPlatform>,
    next_user_id: u32,
    next_platform_id: u32,
}

impl InMemoryUserRepository {
    pub closed spec fn users(&self) -> Seq<User> {
        self.users@
    }

    pub closed spec fn links(&self) -> Seq<UserPlatform> {
        self.user_platforms@
    }

    pub closed spec fn next_user_id(&self) -> u32 {
        self.next_user_id
    }

    pub closed spec fn next_link_id(&self) -> u32 {
        self.next_platform_id
    }

    /// No account is linked twice.
    pub open spec fn accounts_unique(&self) -> bool {
        accounts_unique_in(self.links())
    }

    /// Every link id is below the id the next link gets, so a new link's
    /// id is one no stored link has.
    pub open spec fn link_ids_fresh(&self) -> bool {
        link_ids_below(self.links(), self.next_link_id())
    }

    pub fn new() -> (r: Self)
        ensures
            r.users() == Seq::<User>::empty(),
            r.links() == Seq::<UserPlatform>::empty(),
            r.next_user_id() == 1,
            r.next_link_id() == 1,
            r.accounts_unique(),
            r.link_ids_fresh(),
    {
        InMemoryUserRepository {
            users: Vec::new(),
            user_platforms: Vec::new(),
            next_user_id: 1,
            next_platform_id: 1,
        }
    }

    /// Adds a user with the next identifier.
    pub fn create(&mut self, display_name: &str) -> (r: Result<User, RepositoryError>)
        ensures
            r matches Ok(u) && {
                &&& u.id.0 == old(self).next_user_id()
                &&& u.display_name@ == display_name@
                &&& u.created_at == u.updated_at
                &&& final(self).users() == old(self).users().push(u)
            },
            final(self).links() == old(self).links(),
            final(self).next_user_id() == old(self).next_user_id().wrapping_add(1),
            final(self).next_link_id() == old(self).next_link_id(),
    {
        let id = self.next_user_id;
        self.next_user_id = self.next_user_id.wrapping_add(1);
        let now = now_micros();
        let user = User { id: UserId::new(id), display_name: display_name.to_owned(), created_at: now, updated_at: now };
        self.users.push(user.clone());
        Ok(user)
    }

    fn find_user(&self, id: UserId) -> (r: Option<usize>)
        ensures
            match r {
                Some(i) => user_position(self.users(), id) == Some(i as int) && i < self.users().len(),
                None => user_position(self.users(), id) is None,
            },
    {
        let mut i: usize = 0;
        while i < self.users.len()
            invariant
                i <= self.users@.len(),
                forall|j: int| 0 <= j < i ==> self.users@[j].id != id,
            decreases self.users@.len() - i,
        {
            if self.users[i].id == id {
                proof {
                    assert(is_first_user(self.users@, id, i as int));
                    let k = choose|k: int| is_first_user(self.users@, id, k);
                    assert(k == i as int) by {
                        if k < i { } else if k > i { }
                    }
                }
                return Some(i);
            }
            i += 1;
        }
        None
    }

    fn find_account(&self, platform_id: PlatformId, platform_user_id: &str) -> (r: Option<usize>)
        ensures
            match r {
                Some(i) => account_position(self.links(), platform_id, platform_user_id@) == Some(i as int)
                    && i < self.links().len(),
                None => account_position(self.links(), platform_id, platform_user_id@) is None,
            },
    {
        let mut i: usize = 0;
        while i < self.user_platforms.len()
            invariant
                i <= self.user_platforms@.len(),
                forall|j: int| 0 <= j < i ==> !is_account(self.user_platforms@[j], platform_id, platform_user_id@),
            decreases self.user_platforms@.len() - i,
        {
            let l = &self.user_platforms[i];
            if l.platform_id == platform_id && eq_str(&l.platform_user_id, platform_user_id) {
                proof {
                    assert(is_first_account(self.user_platforms@, platform_id, platform_user_id@, i as int));
                    let k = choose|k: int| is_first_account(self.user_platforms@, platform_id, platform_user_id@, k);
                    assert(k == i as int) by {
                        if k < i { } else if k > i { }
                    }
                }
                return Some(i);
            }
            i += 1;
        }
        None
    }

    fn find_user_link(&self, user_id: UserId, platform_id: PlatformId) -> (r: Option<usize>)
        ensures
            match r {
                Some(i) => user_link_position(self.links(), user_id, platform_id) == Some(i as int)
                    && i < self.links().len(),
                None => user_link_position(self.links(), user_id, platform_id) is None,
            },
    {
        let mut i: usize = 0;
        while i < self.user_platforms.len()
            invariant
                i <= self.user_platforms@.len(),
                forall|j: int| 0 <= j < i ==> !links_user_on(self.user_platforms@[j], user_id, platform_id),
            decreases self.user_platforms@.len() - i,
        {
            let l = &self.user_platforms[i];
            if l.user_id == user_id && l.platform_id == platform_id {
                proof {
                    assert(is_first_user_link(self.user_platforms@, user_id, platform_id, i as int));
                    let k = choose|k: int| is_first_user_link(self.user_platforms@, user_id, platform_id, k);
                    assert(k == i as int) by {
                        if k < i { } else if k > i { }
                    }
                }
                return Some(i);
            }
            i += 1;
        }
        None
    }

    /// Sets `updated_at` of the first user `id`, if there is one, to the
    /// current time, and returns the time it read from the clock.
    fn touch(&mut self, id: UserId) -> (stamp: i64)
        ensures
            touched(old(self).users(), final(self).users(), id),
            match user_position(old(self).users(), id) {
                Some(i) => final(self).users() == old(self).users().update(
                    i,
                    User { updated_at: stamp, ..old(self).users()[i] },
                ),
                None => final(self).users() == old(self).users(),
            },
            final(self).links() == old(self).links(),
            final(self).next_user_id() == old(self).next_user_id(),
            final(self).next_link_id() == old(self).next_link_id(),
    {
        let now = now_micros();
        match self.find_user(id) {
            Some(i) => {
                let mut u = self.users[i].clone();
                u.updated_at = now;
                self.users.set(i, u);
            },
            None => {},
        }
        now
    }

    /// The user linked to the account, if any.
    pub fn find_by_platform(&self, platform_id: PlatformId, platform_user_id: &str) -> (r: Result<
        Option<User>,
        RepositoryError,
    >)
        ensures
            r matches Ok(o) && match account_position(self.links(), platform_id, platform_user_id@) {
                Some(i) => o == user_lookup(self.users(), self.links()[i].user_id),
                None => o is None,
            },
    {
        match self.find_account(platform_id, platform_user_id) {
            Some(i) => {
                let uid = self.user_platforms[i].user_id;
                match self.find_user(uid) {
                    Some(j) => Ok(Some(self.users[j].clone())),
                    None => Ok(None),
                }
            },
            None => Ok(None),
        }
    }

    /// The first user with identifier `id`.
    pub fn get_by_id(&self, id: UserId) -> (r: Result<Option<User>, RepositoryError>)
        ensures
            r matches Ok(o) && o == user_lookup(self.users(), id),
    {
        match self.find_user(id) {
            Some(i) => Ok(Some(self.users[i].clone())),
            None => Ok(None),
        }
    }

    /// All links of user `user_id`, in the order they were made.
    pub fn get_platforms(&self, user_id: UserId) -> (r: Result<Vec<UserPlatform>, RepositoryError>)
        ensures
            r matches Ok(v) && v@ == self.links().filter(owned_by(user_id)),
    {
        let ghost s = self.links();
        let n = self.user_platforms.len();
        let mut out: Vec<UserPlatform> = Vec::new();
        let mut i: usize = 0;
        while i < n
            invariant
                n == s.len(),
                s == self.user_platforms@,
                i <= n,
                out@ == s.take(i as int).filter(owned_by(user_id)),
            decreases n - i,
        {
            proof {
                crate::seqs::lemma_take_one_more_filter(s, i as int, owned_by(user_id));
            }
            if self.user_platforms[i].user_id == user_id {
                out.push(self.user_platforms[i].clone());
            }
            i += 1;
        }
        proof {
            assert(s.take(n as int) == s);
        }
        Ok(out)
    }

    /// Links an account to user `user_id`; refused when the account is
    /// already linked to anyone.
    pub fn link_platform(
        &mut self,
        user_id: UserId,
        platform_id: PlatformId,
        platform_user_id: &str,
        platform_username: &str,
    ) -> (r: Result<UserPlatform, RepositoryError>)
        ensures
            account_linked(old(self).links(), platform_id, platform_user_id@) ==> {
                &&& r matches Err(RepositoryError::Conflict(m)) && m@
                    == "platform_user_id already linked to another user"@
                &&& final(self).users() == old(self).users()
                &&& final(self).links() == old(self).links()
                &&& final(self).next_link_id() == old(self).next_link_id()
            },
            !account_linked(old(self).links(), platform_id, platform_user_id@) ==> {
                &&& r matches Ok(l) && {
                    &&& l.id.0 == old(self).next_link_id()
                    &&& l.user_id == user_id
                    &&& l.platform_id == platform_id
                    &&& l.platform_user_id@ == platform_user_id@
                    &&& l.platform_username@ == platform_username@
                    &&& final(self).links() == old(self).links().push(l)
                    &&& old(self).link_ids_fresh() ==> forall|j: int|
                        0 <= j < old(self).links().len() ==> #[trigger] old(self).links()[j].id != l.id
                }
                &&& touched(old(self).users(), final(self).users(), user_id)
                &&& final(self).next_link_id() == old(self).next_link_id().wrapping_add(1)
            },
            final(self).next_user_id() == old(self).next_user_id(),
            old(self).accounts_unique() ==> final(self).accounts_unique(),
            old(self).link_ids_fresh() && old(self).next_link_id() < u32::MAX
                ==> final(self).link_ids_fresh(),
    {
        if self.find_account(platform_id, platform_user_id).is_some() {
            return Err(RepositoryError::Conflict(
                "platform_user_id already linked to another user".to_owned(),
            ));
        }
        let id = self.next_platform_id;
        self.next_platform_id = self.next_platform_id.wrapping_add(1);
        let link = UserPlatform {
            id: UserPlatformId::new(id),
            user_id,
            platform_id,
            platform_user_id: platform_user_id.to_owned(),
            platform_username: platform_username.to_owned(),
        };
        self.touch(user_id);
        let ghost before = self.user_platforms@;
        self.user_platforms.push(link.clone());
        proof {
            assert(self.user_platforms@ == before.push(link));
            if old(self).link_ids_fresh() {
                assert forall|j: int| 0 <= j < before.len() implies #[trigger] before[j].id
                    != link.id by {
                    assert(before[j].id.0 < id);
                }
                if id < u32::MAX {
                    assert forall|j: int| 0 <= j < self.user_platforms@.len() implies
                        #[trigger] self.user_platforms@[j].id.0 < self.next_platform_id by {
                        if j < before.len() {
                            assert(self.user_platforms@[j] == before[j]);
                        }
                    }
                }
            }
        }
        Ok(link)
    }

    /// Renames the first user `user_id`.
    pub fn update_display_name(&mut self, user_id: UserId, display_name: &str) -> (r: Result<
        Option<User>,
        RepositoryError,
    >)
        ensures
            final(self).links() == old(self).links(),
            final(self).next_user_id() == old(self).next_user_id(),
            final(self).next_link_id() == old(self).next_link_id(),
            match user_position(old(self).users(), user_id) {
                None => r matches Ok(None) && final(self).users() == old(self).users(),
                Some(i) => r matches Ok(Some(u)) && {
                    &&& u == (User {
                        display_name: u.display_name,
                        updated_at: u.updated_at,
                        ..old(self).users()[i]
                    })
                    &&& u.display_name@ == display_name@
                    &&& final(self).users() == old(self).users().update(i, u)
                },
            },
    {
        match self.find_user(user_id) {
            Some(i) => {
                let now = now_micros();
                let mut u = self.users[i].clone();
                u.display_name = display_name.to_owned();
                u.updated_at = now;
                self.users.set(i, u.clone());
                Ok(Some(u))
            },
            None => Ok(None),
        }
    }

    /// Renames the account of user `user_id` on `platform_id`.
    pub fn update_platform_username(
        &mut self,
        user_id: UserId,
        platform_id: PlatformId,
        platform_username: &str,
    ) -> (r: Result<Option<UserPlatform>, RepositoryError>)
        ensures
            final(self).next_user_id() == old(self).next_user_id(),
            final(self).next_link_id() == old(self).next_link_id(),
            match user_link_position(old(self).links(), user_id, platform_id) {
                None => {
                    &&& r matches Ok(None)
                    &&& final(self).links() == old(self).links()
                    &&& final(self).users() == old(self).users()
                },
                Some(i) => r matches Ok(Some(l)) && {
                    &&& l == (UserPlatform {
                        platform_username: l.platform_username,
                        ..old(self).links()[i]
                    })
                    &&& l.platform_username@ == platform_username@
                    &&& final(self).links() == old(self).links().update(i, l)
                    &&& touched(old(self).users(), final(self).users(), user_id)
                },
            },
            old(self).accounts_unique() ==> final(self).accounts_unique(),
            old(self).link_ids_fresh() ==> final(self).link_ids_fresh(),
    {
        match self.find_user_link(user_id, platform_id) {
            Some(i) => {
                let mut l = self.user_platforms[i].clone();
                l.platform_username = platform_username.to_owned();
                self.user_platforms.set(i, l.clone());
                proof {
                    let o = old(self).links();
                    let f = self.user_platforms@;
                    if accounts_unique_in(o) {
                        assert forall|a: int, b: int| 0 <= a < b < f.len() implies !is_account(
                            f[b],
                            f[a].platform_id,
                            f[a].platform_user_id@,
                        ) by {
                            assert(!is_account(o[b], o[a].platform_id, o[a].platform_user_id@));
                        }
                    }
                    if link_ids_below(o, self.next_platform_id) {
                        assert forall|j: int| 0 <= j < f.len() implies #[trigger] f[j].id.0
                            < self.next_platform_id by {
                            assert(f[j].id == o[j].id);
                        }
                    }
                }
                self.touch(user_id);
                Ok(Some(l))
            },
            None => Ok(None),
        }
    }

    /// Unlinks user `user_id` from `platform_id`.
    pub fn delete_platform(&mut self, user_id: UserId, platform_id: PlatformId) -> (r: Result<
        bool,
        RepositoryError,
    >)
        ensures
            final(self).links() == old(self).links().filter(not_user_link(user_id, platform_id)),
            final(self).next_user_id() == old(self).next_user_id(),
            final(self).next_link_id() == old(self).next_link_id(),
            user_link_position(old(self).links(), user_id, platform_id) is None ==> {
                &&& r matches Ok(false)
                &&& final(self).users() == old(self).users()
            },
            user_link_position(old(self).links(), user_id, platform_id) is Some ==> {
                &&& r matches Ok(true)
                &&& touched(old(self).users(), final(self).users(), user_id)
            },
            old(self).accounts_unique() ==> final(self).accounts_unique(),
            old(self).link_ids_fresh() ==> final(self).link_ids_fresh(),
    {
        let ghost s = self.links();
        let n = self.user_platforms.len();
        let mut kept: Vec<UserPlatform> = Vec::new();
        let mut found = false;
        let mut i: usize = 0;
        while i < n
            invariant
                n == s.len(),
                s == self.user_platforms@,
                i <= n,
                kept@ == s.take(i as int).filter(not_user_link(user_id, platform_id)),
                found == exists|j: int| 0 <= j < i && links_user_on(s[j], user_id, platform_id),
            decreases n - i,
        {
            proof {
                crate::seqs::lemma_take_one_more_filter(s, i as int, not_user_link(user_id, platform_id));
            }
            let l = &self.user_platforms[i];
            if l.user_id == user_id && l.platform_id == platform_id {
                found = true;
            } else {
                kept.push(l.clone());
            }
            i += 1;
        }
        proof {
            assert(s.take(n as int) == s);
        }
        self.user_platforms = kept;
        proof {
            if old(self).accounts_unique() {
                lemma_filter_keeps_accounts_unique(s, not_user_link(user_id, platform_id));
            }
            if old(self).link_ids_fresh() {
                lemma_filter_keeps_link_ids_below(
                    s,
                    not_user_link(user_id, platform_id),
                    self.next_platform_id,
                );
            }
        }
        if !found {
            return Ok(false);
        }
        self.touch(user_id);
        Ok(true)
    }

    /// Deletes user `id` together with all its links.
    pub fn delete_user(&mut self, id: UserId) -> (r: Result<bool, RepositoryError>)
        ensures
            final(self).users() == old(self).users().filter(other_users(id)),
            final(self).next_user_id() == old(self).next_user_id(),
            final(self).next_link_id() == old(self).next_link_id(),
            user_position(old(self).users(), id) is None ==> {
                &&& r matches Ok(false)
                &&& final(self).links() == old(self).links()
            },
            user_position(old(self).users(), id) is Some ==> {
                &&& r matches Ok(true)
                &&& final(self).links() == old(self).links().filter(not_owned_by(id))
            },
            old(self).accounts_unique() ==> final(self).accounts_unique(),
            old(self).link_ids_fresh() ==> final(self).link_ids_fresh(),
    {
        let ghost s = self.users();
        let n = self.users.len();
        let mut kept: Vec<User> = Vec::new();
        let mut found = false;
        let mut i: usize = 0;
        while i < n
            invariant
                n == s.len(),
                s == self.users@,
                i <= n,
                kept@ == s.take(i as int).filter(other_users(id)),
                found == exists|j: int| 0 <= j < i && s[j].id == id,
            decreases n - i,
        {
            proof {
                crate::seqs::lemma_take_one_more_filter(s, i as int, other_users(id));
            }
            if self.users[i].id == id {
                found = true;
            } else {
                kept.push(self.users[i].clone());
            }
            i += 1;
        }
        proof {
            assert(s.take(n as int) == s);
        }
        self.users = kept;
        if !found {
            return Ok(false);
        }
        let ghost t = self.links();
        let m = self.user_platforms.len();
        let mut links: Vec<UserPlatform> = Vec::new();
        let mut k: usize = 0;
        while k < m
            invariant
                m == t.len(),
                t == self.user_platforms@,
                k <= m,
                links@ == t.take(k as int).filter(not_owned_by(id)),
            decreases m - k,
        {
            proof {
                crate::seqs::lemma_take_one_more_filter(t, k as int, not_owned_by(id));
            }
            if self.user_platforms[k].user_id != id {
                links.push(self.user_platforms[k].clone());
            }
            k += 1;
        }
        proof {
            assert(t.take(m as int) == t);
        }
        self.user_platforms = links;
        proof {
            if old(self).accounts_unique() {
                lemma_filter_keeps_accounts_unique(t, not_owned_by(id));
            }
            if old(self).link_ids_fresh() {
                lemma_filter_keeps_link_ids_below(t, not_owned_by(id), self.next_platform_id);
            }
        }
        Ok(true)
    }
}

/// Every link id is below `next`, the id the next link gets.
pub open spec fn link_ids_below(s: Seq<UserPlatform>, next: u32) -> bool {
    forall|i: int| 0 <= i < s.len() ==> #[trigger] s[i].id.0 < next
}

/// Removing links keeps every remaining id below `next`.
pub proof fn lemma_filter_keeps_link_ids_below(
    s: Seq<UserPlatform>,
    pred: spec_fn(UserPlatform) -> bool,
    next: u32,
)
    requires
        link_ids_below(s, next),
    ensures
        link_ids_below(s.filter(pred), next),
{
    let f = s.filter(pred);
    assert forall|i: int| 0 <= i < f.len() implies #[trigger] f[i].id.0 < next by {
        assert(f.contains(f[i]));
        s.lemma_filter_contains_rev(pred, f[i]);
        let k = choose|k: int| 0 <= k < s.len() && s[k] == f[i];
        assert(s[k].id.0 < next);
    }
}

/// Removing links never makes an account linked twice.
pub proof fn lemma_filter_keeps_accounts_unique(s: Seq<UserPlatform>, pred: spec_fn(UserPlatform) -> bool)
    requires
        accounts_unique_in(s),
    ensures
        accounts_unique_in(s.filter(pred)),
    decreases s.len(),
{
    reveal(Seq::filter);
    if s.len() > 0 {
        let t = s.drop_last();
        lemma_filter_keeps_accounts_unique(t, pred);
        let ft = t.filter(pred);
        assert forall|i: int| 0 <= i < ft.len() implies !is_account(
            s.last(),
            ft[i].platform_id,
            ft[i].platform_user_id@,
        ) by {
            assert(ft.contains(ft[i]));
            t.lemma_filter_contains_rev(pred, ft[i]);
            let k = choose|k: int| 0 <= k < t.len() && t[k] == ft[i];
            assert(s[k] == t[k]);
        }
    }
}

/// A streaming platform users can link accounts on.
#[derive(Debug)]
pub struct Platform {
    pub id: PlatformId,
    pub name: String,
}

impl Clone for Platform {
    fn clone(&self) -> (r: Self)
        ensures
            r == *self,
    {
        Platform { id: self.id, name: self.name.clone() }
    }
}

/// The name of a known platform.
pub open spec fn platform_name(id: PlatformId) -> Seq<char> {
    if id.0 == 1 {
        "twitch"@
    } else if id.0 == 2 {
        "youtube"@
    } else if id.0 == 3 {
        "vk_video_live"@
    } else {
        "unknown"@
    }
}

impl PlatformId {
    /// The name of the platform.
    pub fn name(&self) -> (r: String)
        ensures
            r@ == platform_name(*self),
    {
        proof {
            reveal_strlit("twitch");
            reveal_strlit("youtube");
            reveal_strlit("vk_video_live");
            reveal_strlit("unknown");
        }
        if self.0 == 1 {
            "twitch".to_owned()
        } else if self.0 == 2 {
            "youtube".to_owned()
        } else if self.0 == 3 {
            "vk_video_live".to_owned()
        } else {
            "unknown".to_owned()
        }
    }
}

impl Platform {
    /// The platform with identifier `id`, named after it.
    pub fn from_id(id: PlatformId) -> (r: Self)
        ensures
            r.id == id,
            r.name@ == platform_name(id),
    {
        Platform { id, name: id.name() }
    }
}

/// `i` is the first position of `s` holding the platform named `name`.
pub open spec fn is_first_platform_named(s: Seq<Platform>, name: Seq<char>, i: int) -> bool {
    &&& 0 <= i < s.len()
    &&& s[i].name@ == name
    &&& forall|j: int| 0 <= j < i ==> s[j].name@ != name
}

/// The first platform named `name`.
pub open spec fn platform_named(s: Seq<Platform>, name: Seq<char>) -> Option<Platform> {
    if exists|i: int| 0 <= i < s.len() && s[i].name@ == name {
        Some(s[choose|i: int| is_first_platform_named(s, name, i)])
    } else {
        None
    }
}

/// The in-memory, read-only list of platforms.
pub struct InMemoryPlatformRepository {
    platforms: Vec<Platform>,
}

impl InMemoryPlatformRepository {
    pub closed spec fn platforms(&self) -> Seq<Platform> {
        self.platforms@
    }

    /// The three platforms the backend knows: Twitch, YouTube and VK Video Live.
    pub fn new_seeded() -> (r: Self)
        ensures
            r.platforms().len() == 3,
            r.platforms()[0].id.0 == 1 && r.platforms()[0].name@ == "twitch"@,
            r.platforms()[1].id.0 == 2 && r.platforms()[1].name@ == "youtube"@,
            r.platforms()[2].id.0 == 3 && r.platforms()[2].name@ == "vk_video_live"@,
    {
        let mut platforms: Vec<Platform> = Vec::new();
        platforms.push(Platform::from_id(PlatformId::twitch()));
        platforms.push(Platform::from_id(PlatformId::youtube()));
        platforms.push(Platform::from_id(PlatformId::vk_video_live()));
        InMemoryPlatformRepository { platforms }
    }

    /// The first platform named `name`.
    pub fn find_by_name(&self, name: &str) -> (r: Result<Option<Platform>, RepositoryError>)
        ensures
            r matches Ok(o) && o == platform_named(self.platforms(), name@),
    {
        let mut i: usize = 0;
        while i < self.platforms.len()
            invariant
                i <= self.platforms@.len(),
                forall|j: int| 0 <= j < i ==> self.platforms@[j].name@ != name@,
            decreases self.platforms@.len() - i,
        {
            if eq_str(&self.platforms[i].name, name) {
                proof {
                    assert(is_first_platform_named(self.platforms@, name@, i as int));
                    let k = choose|k: int| is_first_platform_named(self.platforms@, name@, k);
                    assert(k == i as int) by {
                        if k < i { } else if k > i { }
                    }
                }
                return Ok(Some(self.platforms[i].clone()));
            }
            i += 1;
        }
        Ok(None)
    }

    /// All platforms.
    pub fn load_all(&self) -> (r: Result<Vec<Platform>, RepositoryError>)
        ensures
            r matches Ok(v) && v@ == self.platforms(),
    {
        Ok(self.platforms.clone())
    }
}

/// Where some user has the id, a first one has it.
proof fn lemma_first_user_exists(s: Seq<User>, id: UserId)
    requires
        exists|i: int| 0 <= i < s.len() && s[i].id == id,
    ensures
        exists|i: int| is_first_user(s, id, i),
    decreases s.len(),
{
    let w = choose|i: int| 0 <= i < s.len() && s[i].id == id;
    if s[0].id == id {
        assert(is_first_user(s, id, 0));
    } else {
        let t = s.skip(1);
        assert(t[w - 1].id == id);
        lemma_first_user_exists(t, id);
        let k = choose|k: int| is_first_user(t, id, k);
        assert forall|j: int| 0 <= j < k + 1 implies s[j].id != id by {
            if j > 0 {
                assert(s[j] == t[j - 1]);
            }
        }
        assert(is_first_user(s, id, k + 1));
    }
}

/// The user a lookup finds carries the id that was looked up.
pub proof fn lemma_user_lookup_id(s: Seq<User>, id: UserId)
    ensures
        user_lookup(s, id) matches Some(u) ==> u.id == id,
        user_position(s, id) matches Some(i) ==> is_first_user(s, id, i),
{
    if exists|i: int| 0 <= i < s.len() && s[i].id == id {
        lemma_first_user_exists(s, id);
    }
}

/// Where the account is linked, a first link of it exists.
proof fn lemma_first_account_exists(s: Seq<UserPlatform>, platform_id: PlatformId, platform_user_id: Seq<char>)
    requires
        account_linked(s, platform_id, platform_user_id),
    ensures
        exists|i: int| is_first_account(s, platform_id, platform_user_id, i),
    decreases s.len(),
{
    let w = choose|i: int| 0 <= i < s.len() && is_account(s[i], platform_id, platform_user_id);
    if is_account(s[0], platform_id, platform_user_id) {
        assert(is_first_account(s, platform_id, platform_user_id, 0));
    } else {
        let t = s.skip(1);
        assert(is_account(t[w - 1], platform_id, platform_user_id));
        lemma_first_account_exists(t, platform_id, platform_user_id);
        let k = choose|k: int| is_first_account(t, platform_id, platform_user_id, k);
        assert forall|j: int| 0 <= j < k + 1 implies !is_account(s[j], platform_id, platform_user_id) by {
            if j > 0 {
                assert(s[j] == t[j - 1]);
            }
        }
        assert(is_first_account(s, platform_id, platform_user_id, k + 1));
    }
}

/// The position an account lookup finds is its first link.
pub proof fn lemma_account_position_first(s: Seq<UserPlatform>, platform_id: PlatformId, platform_user_id: Seq<char>)
    ensures
        account_position(s, platform_id, platform_user_id) matches Some(i) ==> is_first_account(
            s,
            platform_id,
            platform_user_id,
            i,
        ),
{
    if account_linked(s, platform_id, platform_user_id) {
        lemma_first_account_exists(s, platform_id, platform_user_id);
    }
}

/// Linking an account that was not linked makes the new link the one a
/// lookup of the account finds.
pub proof fn lemma_last_link_position(
    s: Seq<UserPlatform>,
    l: UserPlatform,
    platform_id: PlatformId,
    platform_user_id: Seq<char>,
)
    requires
        !account_linked(s, platform_id, platform_user_id),
        is_account(l, platform_id, platform_user_id),
    ensures
        account_position(s.push(l), platform_id, platform_user_id) == Some(s.len() as int),
{
    let t = s.push(l);
    assert(is_account(t[s.len() as int], platform_id, platform_user_id));
    assert(account_linked(t, platform_id, platform_user_id));
    lemma_account_position_first(t, platform_id, platform_user_id);
    let c = account_position(t, platform_id, platform_user_id)->0;
    if c < s.len() {
        assert(t[c] == s[c]);
    }
}

} // verus!
