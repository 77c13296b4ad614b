//! Admins of the backend, their in-memory repository and the service that
//! guards the root role.

use vstd::prelude::*;

use crate::clock::now_micros;
use crate::error::{AdminServiceError, RepositoryError};
use crate::text::eq_str;

verus! {

broadcast use vstd::seq_lib::group_seq_properties, vstd::seq::group_seq_axioms;

/// A Twitch account allowed into the admin area; a root admin may also
/// manage other admins.
#[derive(Debug)]
pub struct Admin {
    pub twitch_id: String,
    pub display_name: Option<String>,
    pub is_root: bool,
    pub created_at: i64,
}

impl Clone for Admin {
    fn clone(&self) -> (r: Self)
        ensures
            r == *self,
    {
        Admin {
            twitch_id: self.twitch_id.clone(),
            display_name: match &self.display_name {
                Some(d) => Some(d.clone()),
                None => None,
            },
            is_root: self.is_root,
            created_at: self.created_at,
        }
    }
}

/// `i` is the first position of `s` holding the admin `twitch_id`.
pub open spec fn is_first_admin(s: Seq<Admin>, twitch_id: Seq<char>, i: int) -> bool {
    &&& 0 <= i < s.len()
    &&& s[i].twitch_id@ == twitch_id
    &&& forall|j: int| 0 <= j < i ==> s[j].twitch_id@ != twitch_id
}

pub open spec fn is_admin_in(s: Seq<Admin>, twitch_id: Seq<char>) -> bool {
    exists|i: int| 0 <= i < s.len() && s[i].twitch_id@ == twitch_id
}

/// Position of the admin `twitch_id`.
pub open spec fn admin_position(s: Seq<Admin>, twitch_id: Seq<char>) -> Option<int> {
    if is_admin_in(s, twitch_id) {
        Some(choose|i: int| is_first_admin(s, twitch_id, i))
    } else {
        None
    }
}

/// The admin `twitch_id`.
pub open spec fn admin_lookup(s: Seq<Admin>, twitch_id: Seq<char>) -> Option<Admin> {
    match admin_position(s, twitch_id) {
        Some(i) => Some(s[i]),
        None => None,
    }
}

/// Whether `twitch_id` is a root admin.
pub open spec fn is_root_in(s: Seq<Admin>, twitch_id: Seq<char>) -> bool {
    match admin_lookup(s, twitch_id) {
        Some(a) => a.is_root,
        None => false,
    }
}

/// Root admins as a predicate.
pub open spec fn root_filter() -> spec_fn(Admin) -> bool {
    |a: Admin| a.is_root
}

/// Number of root admins.
pub open spec fn root_count(s: Seq<Admin>) -> nat {
    s.filter(root_filter()).len()
}

/// Admins other than `twitch_id`.
pub open spec fn other_admins(twitch_id: Seq<char>) -> spec_fn(Admin) -> bool {
    |a: Admin| a.twitch_id@ != twitch_id
}

/// No Twitch account appears twice.
pub open spec fn twitch_ids_unique(s: Seq<Admin>) -> bool {
    forall|i: int, j: int| 0 <= i < j < s.len() ==> s[i].twitch_id@ != s[j].twitch_id@
}

/// The in-memory admin list.
pub struct InMemoryAdminRepository {
    admins: Vec<Admin>,
}

impl InMemoryAdminRepository {
    pub closed spec fn admins(&self) -> Seq<Admin> {
        self.admins@
    }

    pub fn new() -> (r: Self)
        ensures
            r.admins() == Seq::<Admin>::empty(),
    {
        InMemoryAdminRepository { admins: Vec::new() }
    }

    fn find(&self, twitch_id: &str) -> (r: Option<usize>)
        ensures
            match r {
                Some(i) => admin_position(self.admins(), twitch_id@) == Some(i as int) && i
                    < self.admins().len(),
                None => admin_position(self.admins(), twitch_id@) is None,
            },
    {
        let mut i: usize = 0;
        while i < self.admins.len()
            invariant
                i <= self.admins@.len(),
                forall|j: int| 0 <= j < i ==> self.admins@[j].twitch_id@ != twitch_id@,
            decreases self.admins@.len() - i,
        {
            if eq_str(&self.admins[i].twitch_id, twitch_id) {
                proof {
                    assert(is_first_admin(self.admins@, twitch_id@, i as int));
                    let k = choose|k: int| is_first_admin(self.admins@, twitch_id@, k);
                    assert(k == i as int) by {
                        if k < i { } else if k > i { }
                    }
                }
                return Some(i);
            }
            i += 1;
        }
        None
    }

    /// Adds an admin; refused when the Twitch account is already an admin.
    pub fn create(&mut self, twitch_id: &str, display_name: Option<&str>, is_root: bool) -> (r:
        Result<Admin, RepositoryError>)
        ensures
            is_admin_in(old(self).admins(), twitch_id@) ==> {
                &&& r matches Err(RepositoryError::Conflict(m)) && m@
                    == "admin with this twitch_id already exists"@
                &&& final(self).admins() == old(self).admins()
            },
            !is_admin_in(old(self).admins(), twitch_id@) ==> (r matches Ok(a) && {
                &&& a.twitch_id@ == twitch_id@
                &&& match display_name {
                    Some(d) => a.display_name matches Some(x) && x@ == d@,
                    None => a.display_name is None,
                }
                &&& a.is_root == is_root
                &&& final(self).admins() == old(self).admins().push(a)
            }),
            twitch_ids_unique(old(self).admins()) ==> twitch_ids_unique(final(self).admins()),
    {
        if self.find(twitch_id).is_some() {
            return Err(RepositoryError::Conflict("admin with this twitch_id already exists".to_owned()));
        }
        let admin = Admin {
            twitch_id: twitch_id.to_owned(),
            display_name: match display_name {
                Some(d) => Some(d.to_owned()),
                None => None,
            },
            is_root,
            created_at: now_micros(),
        };
        self.admins.push(admin.clone());
        Ok(admin)
    }

    /// The admin `twitch_id`.
    pub fn get_by_twitch_id(&self, twitch_id: &str) -> (r: Result<Option<Admin>, RepositoryError>)
        ensures
            r matches Ok(o) && o == admin_lookup(self.admins(), twitch_id@),
    {
        match self.find(twitch_id) {
            Some(i) => Ok(Some(self.admins[i].clone())),
            None => Ok(None),
        }
    }

    /// All admins, in the order they were added.
    pub fn list(&self) -> (r: Result<Vec<Admin>, RepositoryError>)
        ensures
            r matches Ok(v) && v@ == self.admins(),
    {
        Ok(self.admins.clone())
    }

    /// Sets the display name of admin `twitch_id`.
    pub fn update_display_name(&mut self, twitch_id: &str, display_name: &str) -> (r: Result<
        Option<Admin>,
        RepositoryError,
    >)
        ensures
            match admin_position(old(self).admins(), twitch_id@) {
                None => r matches Ok(None) && final(self).admins() == old(self).admins(),
                Some(i) => r matches Ok(Some(a)) && {
                    &&& a == (Admin { display_name: a.display_name, ..old(self).admins()[i] })
                    &&& a.display_name matches Some(x) && x@ == display_name@
                    &&& final(self).admins() == old(self).admins().update(i, a)
                },
            },
            twitch_ids_unique(old(self).admins()) ==> twitch_ids_unique(final(self).admins()),
    {
        match self.find(twitch_id) {
            Some(i) => {
                let mut a = self.admins[i].clone();
                a.display_name = Some(display_name.to_owned());
                self.admins.set(i, a.clone());
                proof {
                    lemma_update_keeps_ids_unique(old(self).admins(), i as int, a);
                }
                Ok(Some(a))
            },
            None => Ok(None),
        }
    }

    /// Grants or revokes the root role of admin `twitch_id`.
    pub fn set_root(&mut self, twitch_id: &str, is_root: bool) -> (r: Result<Option<Admin>, RepositoryError>)
        ensures
            match admin_position(old(self).admins(), twitch_id@) {
                None => r matches Ok(None) && final(self).admins() == old(self).admins(),
                Some(i) => r matches Ok(Some(a)) && {
                    &&& a == (Admin { is_root, ..old(self).admins()[i] })
                    &&& final(self).admins() == old(self).admins().update(i, a)
                },
            },
            twitch_ids_unique(old(self).admins()) ==> twitch_ids_unique(final(self).admins()),
    {
        match self.find(twitch_id) {
            Some(i) => {
                let mut a = self.admins[i].clone();
                a.is_root = is_root;
                self.admins.set(i, a.clone());
                proof {
                    lemma_update_keeps_ids_unique(old(self).admins(), i as int, a);
                }
                Ok(Some(a))
            },
            None => Ok(None),
        }
    }

    /// Removes admin `twitch_id`; tells whether there was one.
    pub fn delete_by_twitch_id(&mut self, twitch_id: &str) -> (r: Result<bool, RepositoryError>)
        ensures
            final(self).admins() == old(self).admins().filter(other_admins(twitch_id@)),
            r matches Ok(b) && b == is_admin_in(old(self).admins(), twitch_id@),
            twitch_ids_unique(old(self).admins()) ==> twitch_ids_unique(final(self).admins()),
    {
        let ghost s = self.admins();
        let n = self.admins.len();
        let mut kept: Vec<Admin> = Vec::new();
        let mut found = false;
        let mut i: usize = 0;
        while i < n
            invariant
                n == s.len(),
                s == self.admins@,
                i <= n,
                kept@ == s.take(i as int).filter(other_admins(twitch_id@)),
                found == exists|j: int| 0 <= j < i && s[j].twitch_id@ == twitch_id@,
            decreases n - i,
        {
            proof {
                crate::seqs::lemma_take_one_more_filter(s, i as int, other_admins(twitch_id@));
            }
            if eq_str(&self.admins[i].twitch_id, twitch_id) {
                found = true;
            } else {
                kept.push(self.admins[i].clone());
            }
            i += 1;
        }
        proof {
            assert(s.take(n as int) == s);
            if twitch_ids_unique(s) {
                lemma_filter_keeps_ids_unique(s, other_admins(twitch_id@));
            }
        }
        self.admins = kept;
        Ok(found)
    }
}

/// Changing anything but the Twitch account of one admin keeps accounts unique.
pub proof fn lemma_update_keeps_ids_unique(s: Seq<Admin>, i: int, a: Admin)
    requires
        0 <= i < s.len(),
        a.twitch_id == s[i].twitch_id,
    ensures
        twitch_ids_unique(s) ==> twitch_ids_unique(s.update(i, a)),
{
    let t = s.update(i, a);
    if twitch_ids_unique(s) {
        assert forall|x: int, y: int| 0 <= x < y < t.len() implies t[x].twitch_id@ != t[y].twitch_id@ by {
            assert(t[x].twitch_id == s[x].twitch_id);
            assert(t[y].twitch_id == s[y].twitch_id);
        }
    }
}

/// Removing admins keeps accounts unique.
pub proof fn lemma_filter_keeps_ids_unique(s: Seq<Admin>, pred: spec_fn(Admin) -> bool)
    requires
        twitch_ids_unique(s),
    ensures
        twitch_ids_unique(s.filter(pred)),
    decreases s.len(),
{
    reveal(Seq::filter);
    if s.len() > 0 {
        let t = s.drop_last();
        lemma_filter_keeps_ids_unique(t, pred);
        let ft = t.filter(pred);
        assert forall|i: int| 0 <= i < ft.len() implies ft[i].twitch_id@ != s.last().twitch_id@ by {
            assert(ft.contains(ft[i]));
            t.lemma_filter_contains_rev(pred, ft[i]);
            let k = choose|k: int| 0 <= k < t.len() && t[k] == ft[i];
            assert(s[k] == t[k]);
        }
    }
}

/// What seeding `twitch_id` does to the admins: an existing admin becomes
/// root; otherwise a root admin without display name is added.
pub open spec fn seed_outcome(before: Seq<Admin>, after: Seq<Admin>, twitch_id: Seq<char>) -> bool {
    match admin_position(before, twitch_id) {
        Some(i) => after == before.update(i, Admin { is_root: true, ..before[i] }),
        None => after.len() == before.len() + 1 && after.drop_last() == before
            && after.last().twitch_id@ == twitch_id && after.last().display_name is None
            && after.last().is_root,
    }
}

/// Admin management on top of the admin repository.
pub struct AdminService {
    repo: InMemoryAdminRepository,
}

impl AdminService {
    /// The admins the service manages.
    pub closed spec fn admins(&self) -> Seq<Admin> {
        self.repo.admins()
    }

    pub fn new(repo: InMemoryAdminRepository) -> (r: Self)
        ensures
            r.admins() == repo.admins(),
    {
        AdminService { repo }
    }

    /// Makes `twitch_id` a root admin, adding it when it is not an admin yet.
    pub fn seed(&mut self, twitch_id: &str) -> (r: Result<(), RepositoryError>)
        ensures
            r is Ok,
            is_root_in(final(self).admins(), twitch_id@),
            seed_outcome(old(self).admins(), final(self).admins(), twitch_id@),
            twitch_ids_unique(old(self).admins()) ==> twitch_ids_unique(final(self).admins()),
    {
        let existing = self.repo.get_by_twitch_id(twitch_id);
        match existing {
            Ok(Some(admin)) => {
                if !admin.is_root {
                    let _ = self.repo.set_root(twitch_id, true);
                } else {
                    proof {
                        let s = old(self).admins();
                        let i = admin_position(s, twitch_id@)->0;
                        lemma_root_after_update(s, twitch_id@);
                        assert(Admin { is_root: true, ..s[i] } == s[i]);
                        assert(s.update(i, s[i]) =~= s);
                    }
                }
                proof {
                    lemma_root_after_update(old(self).admins(), twitch_id@);
                }
            },
            _ => {
                let _ = self.repo.create(twitch_id, None, true);
                proof {
                    assert(self.admins().drop_last() =~= old(self).admins());
                    lemma_root_after_push(old(self).admins(), self.admins(), twitch_id@);
                }
            },
        }
        Ok(())
    }

    /// Whether `twitch_id` is an admin.
    pub fn is_admin(&self, twitch_id: &str) -> (r: Result<bool, AdminServiceError>)
        ensures
            r matches Ok(b) && b == is_admin_in(self.admins(), twitch_id@),
    {
        match self.repo.get_by_twitch_id(twitch_id) {
            Ok(o) => Ok(o.is_some()),
            Err(e) => Err(AdminServiceError::Repo(e)),
        }
    }

    /// Whether `twitch_id` is a root admin.
    pub fn is_root(&self, twitch_id: &str) -> (r: Result<bool, AdminServiceError>)
        ensures
            r matches Ok(b) && b == is_root_in(self.admins(), twitch_id@),
    {
        match self.repo.get_by_twitch_id(twitch_id) {
            Ok(Some(a)) => Ok(a.is_root),
            Ok(None) => Ok(false),
            Err(e) => Err(AdminServiceError::Repo(e)),
        }
    }

    /// The admin `twitch_id`.
    pub fn get(&self, twitch_id: &str) -> (r: Result<Option<Admin>, AdminServiceError>)
        ensures
            r matches Ok(o) && o == admin_lookup(self.admins(), twitch_id@),
    {
        match self.repo.get_by_twitch_id(twitch_id) {
            Ok(o) => Ok(o),
            Err(e) => Err(AdminServiceError::Repo(e)),
        }
    }

    /// All admins.
    pub fn list(&self) -> (r: Result<Vec<Admin>, AdminServiceError>)
        ensures
            r matches Ok(v) && v@ == self.admins(),
    {
        match self.repo.list() {
            Ok(v) => Ok(v),
            Err(e) => Err(AdminServiceError::Repo(e)),
        }
    }

    /// Adds a non-root admin; refused when `twitch_id` already is one.
    pub fn add(&mut self, twitch_id: &str, display_name: Option<&str>) -> (r: Result<Admin, AdminServiceError>)
        ensures
            is_admin_in(old(self).admins(), twitch_id@) ==> {
                &&& r matches Err(AdminServiceError::AlreadyAdmin)
                &&& final(self).admins() == old(self).admins()
            },
            !is_admin_in(old(self).admins(), twitch_id@) ==> (r matches Ok(a) && {
                &&& a.twitch_id@ == twitch_id@
                &&& match display_name {
                    Some(d) => a.display_name matches Some(x) && x@ == d@,
                    None => a.display_name is None,
                }
                &&& !a.is_root
                &&& final(self).admins() == old(self).admins().push(a)
            }),
            twitch_ids_unique(old(self).admins()) ==> twitch_ids_unique(final(self).admins()),
    {
        match self.repo.get_by_twitch_id(twitch_id) {
            Ok(Some(_)) => {
                return Err(AdminServiceError::AlreadyAdmin);
            },
            Ok(None) => {},
            Err(e) => {
                return Err(AdminServiceError::Repo(e));
            },
        }
        match self.repo.create(twitch_id, display_name, false) {
            Ok(a) => Ok(a),
            Err(e) => Err(AdminServiceError::Repo(e)),
        }
    }

    /// Grants or revokes the root role of `twitch_id`.
    pub fn set_root(&mut self, twitch_id: &str, is_root: bool) -> (r: Result<Option<Admin>, AdminServiceError>)
        ensures
            match admin_position(old(self).admins(), twitch_id@) {
                None => r matches Ok(None) && final(self).admins() == old(self).admins(),
                Some(i) => r matches Ok(Some(a)) && {
                    &&& a == (Admin { is_root, ..old(self).admins()[i] })
                    &&& final(self).admins() == old(self).admins().update(i, a)
                },
            },
            twitch_ids_unique(old(self).admins()) ==> twitch_ids_unique(final(self).admins()),
    {
        match self.repo.set_root(twitch_id, is_root) {
            Ok(o) => Ok(o),
            Err(e) => Err(AdminServiceError::Repo(e)),
        }
    }

    /// Records a new display name of admin `twitch_id`.
    pub fn update_display_name(&mut self, twitch_id: &str, display_name: &str) -> (r: Result<
        (),
        AdminServiceError,
    >)
        ensures
            match admin_position(old(self).admins(), twitch_id@) {
                None => r matches Err(AdminServiceError::AdminNotFound) && final(self).admins()
                    == old(self).admins(),
                Some(i) => r is Ok && exists|d: String|
                    d@ == display_name@ && final(self).admins() == old(self).admins().update(
                        i,
                        Admin { display_name: Some(d), ..old(self).admins()[i] },
                    ),
            },
            twitch_ids_unique(old(self).admins()) ==> twitch_ids_unique(final(self).admins()),
    {
        match self.repo.get_by_twitch_id(twitch_id) {
            Ok(None) => {
                return Err(AdminServiceError::AdminNotFound);
            },
            Ok(Some(_)) => {},
            Err(e) => {
                return Err(AdminServiceError::Repo(e));
            },
        }
        let r = self.repo.update_display_name(twitch_id, display_name);
        proof {
            if let Ok(Some(a)) = r {
                let d = a.display_name->0;
                assert(Admin { display_name: Some(d), ..old(self).admins()[admin_position(old(self).admins(), twitch_id@)->0] } == a);
            }
        }
        Ok(())
    }

    /// Removes admin `twitch_id`; the last root admin cannot be removed.
    pub fn remove(&mut self, twitch_id: &str) -> (r: Result<(), AdminServiceError>)
        ensures
            !is_admin_in(old(self).admins(), twitch_id@) ==> {
                &&& r matches Err(AdminServiceError::AdminNotFound)
                &&& final(self).admins() == old(self).admins()
            },
            is_root_in(old(self).admins(), twitch_id@) && root_count(old(self).admins()) <= 1 ==> {
                &&& r matches Err(AdminServiceError::CannotRemoveLastRoot)
                &&& final(self).admins() == old(self).admins()
            },
            is_admin_in(old(self).admins(), twitch_id@) && !(is_root_in(old(self).admins(), twitch_id@)
                && root_count(old(self).admins()) <= 1) ==> {
                &&& r is Ok
                &&& final(self).admins() == old(self).admins().filter(other_admins(twitch_id@))
            },
            twitch_ids_unique(old(self).admins()) ==> twitch_ids_unique(final(self).admins()),
    {
        let admin = match self.repo.get_by_twitch_id(twitch_id) {
            Ok(Some(a)) => a,
            Ok(None) => {
                return Err(AdminServiceError::AdminNotFound);
            },
            Err(e) => {
                return Err(AdminServiceError::Repo(e));
            },
        };
        if admin.is_root {
            let roots = self.count_roots();
            if roots <= 1 {
                return Err(AdminServiceError::CannotRemoveLastRoot);
            }
        }
        let _ = self.repo.delete_by_twitch_id(twitch_id);
        Ok(())
    }

    fn count_roots(&self) -> (r: usize)
        ensures
            r == root_count(self.admins()),
    {
        let all = match self.repo.list() {
            Ok(v) => v,
            Err(_) => Vec::new(),
        };
        let ghost s = all@;
        let n = all.len();
        let mut count: usize = 0;
        let mut i: usize = 0;
        while i < n
            invariant
                n == s.len(),
                s == all@,
                s == self.admins(),
                i <= n,
                count == s.take(i as int).filter(root_filter()).len(),
                count <= i,
            decreases n - i,
        {
            proof {
                crate::seqs::lemma_take_one_more_filter(s, i as int, root_filter());
            }
            if all[i].is_root {
                count = count + 1;
            }
            i += 1;
        }
        proof {
            assert(s.take(n as int) == s);
        }
        count
    }
}

/// After setting the root flag of an existing admin (or finding it set),
/// the admin is root.
proof fn lemma_root_after_update(s: Seq<Admin>, twitch_id: Seq<char>)
    requires
        is_admin_in(s, twitch_id),
    ensures
        ({
            let i = admin_position(s, twitch_id)->0;
            &&& is_first_admin(s, twitch_id, i)
            &&& is_root_in(s.update(i, Admin { is_root: true, ..s[i] }), twitch_id)
        }),
{
    let i = admin_position(s, twitch_id)->0;
    let w = choose|k: int| 0 <= k < s.len() && s[k].twitch_id@ == twitch_id;
    lemma_first_admin_exists(s, twitch_id, w);
    let t = s.update(i, Admin { is_root: true, ..s[i] });
    assert(is_first_admin(t, twitch_id, i));
    let k = choose|k: int| is_first_admin(t, twitch_id, k);
    assert(k == i) by {
        if k < i {
            assert(t[k] == s[k]);
        } else if k > i {
        }
    }
}

/// Some position is the first one holding `twitch_id` once one holds it.
proof fn lemma_first_admin_exists(s: Seq<Admin>, twitch_id: Seq<char>, w: int)
    requires
        0 <= w < s.len(),
        s[w].twitch_id@ == twitch_id,
    ensures
        exists|i: int| is_first_admin(s, twitch_id, i),
    decreases w,
{
    if exists|j: int| 0 <= j < w && s[j].twitch_id@ == twitch_id {
        let j = choose|j: int| 0 <= j < w && s[j].twitch_id@ == twitch_id;
        lemma_first_admin_exists(s, twitch_id, j);
    } else {
        assert(is_first_admin(s, twitch_id, w));
    }
}

/// After appending a root admin `twitch_id` to admins that did not hold it,
/// `twitch_id` is root.
proof fn lemma_root_after_push(before: Seq<Admin>, after: Seq<Admin>, twitch_id: Seq<char>)
    requires
        !is_admin_in(before, twitch_id),
        after.len() == before.len() + 1,
        after.drop_last() == before,
        after.last().twitch_id@ == twitch_id,
        after.last().is_root,
    ensures
        is_root_in(after, twitch_id),
{
    let n = before.len() as int;
    assert forall|j: int| 0 <= j < n implies after[j].twitch_id@ != twitch_id by {
        assert(after[j] == before[j]);
    }
    assert(is_first_admin(after, twitch_id, n));
    let k = choose|k: int| is_first_admin(after, twitch_id, k);
    assert(k == n) by {
        if k < n { } else if k > n { }
    }
}

/// A root admin that survives a filter keeps the root count positive.
proof fn lemma_root_survives(s: Seq<Admin>, twitch_id: Seq<char>, x: Admin)
    requires
        s.contains(x),
        x.is_root,
        x.twitch_id@ != twitch_id,
    ensures
        root_count(s.filter(other_admins(twitch_id))) >= 1,
{
    let j = choose|j: int| 0 <= j < s.len() && s[j] == x;
    s.lemma_filter_contains(other_admins(twitch_id), j);
    let t = s.filter(other_admins(twitch_id));
    let k = choose|k: int| 0 <= k < t.len() && t[k] == x;
    t.lemma_filter_contains(root_filter(), k);
}

/// The last root admin is never removed: when a root admin exists and a
/// removal is accepted (the admin exists, and is not the only root), a
/// root admin is left afterwards.
pub proof fn lemma_remove_keeps_root(s: Seq<Admin>, twitch_id: Seq<char>)
    requires
        twitch_ids_unique(s),
        root_count(s) >= 1,
        is_admin_in(s, twitch_id),
        !(is_root_in(s, twitch_id) && root_count(s) <= 1),
    ensures
        root_count(s.filter(other_admins(twitch_id))) >= 1,
{
    let f = s.filter(root_filter());
    assert(f.contains(f[0]));
    s.lemma_filter_contains_rev(root_filter(), f[0]);
    s.lemma_filter_pred(root_filter(), 0);
    if is_root_in(s, twitch_id) {
        assert(f.len() >= 2);
        assert(f.contains(f[1]));
        s.lemma_filter_contains_rev(root_filter(), f[1]);
        s.lemma_filter_pred(root_filter(), 1);
        lemma_filter_keeps_ids_unique(s, root_filter());
        assert(f[0].twitch_id@ != f[1].twitch_id@);
        if f[0].twitch_id@ != twitch_id {
            lemma_root_survives(s, twitch_id, f[0]);
        } else {
            lemma_root_survives(s, twitch_id, f[1]);
        }
    } else {
        let w = choose|k: int| 0 <= k < s.len() && s[k].twitch_id@ == twitch_id;
        lemma_first_admin_exists(s, twitch_id, w);
        let p = admin_position(s, twitch_id)->0;
        assert(is_first_admin(s, twitch_id, p));
        assert(!s[p].is_root);
        let j = choose|j: int| 0 <= j < s.len() && s[j] == f[0];
        if s[j].twitch_id@ == twitch_id {
            if j != p {
                if j < p {
                } else {
                    assert(s[p].twitch_id@ != s[j].twitch_id@);
                }
            }
        }
        lemma_root_survives(s, twitch_id, f[0]);
    }
}

/// Seeding is idempotent: seeding the same admin a second time changes
/// nothing.
pub proof fn lemma_seed_idempotent(s0: Seq<Admin>, s1: Seq<Admin>, s2: Seq<Admin>, twitch_id: Seq<char>)
    requires
        seed_outcome(s0, s1, twitch_id),
        is_root_in(s1, twitch_id),
        seed_outcome(s1, s2, twitch_id),
    ensures
        s2 == s1,
{
    assert(is_admin_in(s1, twitch_id));
    let w = choose|k: int| 0 <= k < s1.len() && s1[k].twitch_id@ == twitch_id;
    lemma_first_admin_exists(s1, twitch_id, w);
    let i = admin_position(s1, twitch_id)->0;
    assert(is_first_admin(s1, twitch_id, i));
    assert(s1[i].is_root);
    assert(Admin { is_root: true, ..s1[i] } == s1[i]);
    assert(s2 =~= s1);
}

} // verus!
