//! The configured actions, in memory, and the service that edits them and
//! counts its revisions.

use vstd::prelude::*;

use crate::action::{Action, ActionKind};
use crate::clock::now_micros;
use crate::error::{ActionServiceError, RepositoryError};
use crate::ids::ActionId;

verus! {

/// Ids strictly increase along the sequence and stay below `next`.
pub open spec fn action_ids_ordered(s: Seq<Action>, next: u32) -> bool {
    &&& forall|i: int, j: int| 0 <= i < j < s.len() ==> s[i].id.0 < s[j].id.0
    &&& forall|i: int| 0 <= i < s.len() ==> s[i].id.0 < next
}

/// Whether `i` is the first position of an action with the given id.
pub open spec fn is_first_action(s: Seq<Action>, id: ActionId, i: int) -> bool {
    0 <= i < s.len() && s[i].id == id && forall|j: int| 0 <= j < i ==> s[j].id != id
}

/// Whether some action has the given id.
pub open spec fn has_action(s: Seq<Action>, id: ActionId) -> bool {
    exists|i: int| 0 <= i < s.len() && #[trigger] s[i].id == id
}

/// Whether an action has another id than `id`.
pub open spec fn action_other_than(id: ActionId) -> spec_fn(Action) -> bool {
    |a: Action| a.id != id
}

/// `a` as an update of `stored` at `now`: the new content, the old
/// creation time, the new modification time.
pub open spec fn action_updated(stored: Action, a: Action, now: i64) -> Action {
    Action { created_at: stored.created_at, updated_at: now, ..a }
}

/// Actions in memory, numbered from one.
pub struct InMemoryActionRepository {
    actions: Vec<Action>,
    next_id: u32,
}

impl InMemoryActionRepository {
    pub closed spec fn entries(&self) -> Seq<Action> {
        self.actions@
    }

    pub closed spec fn next_id(&self) -> u32 {
        self.next_id
    }

    pub open spec fn wf(&self) -> bool {
        action_ids_ordered(self.entries(), self.next_id())
    }

    pub fn new() -> (r: Self)
        ensures
            r.entries() == Seq::<Action>::empty(),
            r.next_id() == 1,
            r.wf(),
    {
        InMemoryActionRepository { actions: Vec::new(), next_id: 1 }
    }

    /// Adds an action under the next id, stamped now.
    pub fn create(&mut self, name: &str, kind: ActionKind, enabled: bool) -> (r: Result<
        Action,
        RepositoryError,
    >)
        ensures
            r matches Ok(a) && {
                &&& a.id.0 == old(self).next_id()
                &&& a.name@ == name@
                &&& a.kind == kind
                &&& a.enabled == enabled
                &&& a.created_at == a.updated_at
                &&& final(self).entries() == old(self).entries().push(a)
            },
            final(self).next_id() == old(self).next_id().wrapping_add(1),
            old(self).wf() && old(self).next_id() < u32::MAX ==> final(self).wf(),
    {
        let id = self.next_id;
        self.next_id = self.next_id.wrapping_add(1);
        let now = now_micros();
        let action = Action {
            id: ActionId::new(id),
            name: name.to_owned(),
            kind,
            enabled,
            created_at: now,
            updated_at: now,
        };
        self.actions.push(action.clone());
        Ok(action)
    }

    fn position(&self, id: ActionId) -> (r: Option<usize>)
        ensures
            match r {
                Some(i) => is_first_action(self.entries(), id, i as int),
                None => !has_action(self.entries(), id),
            },
    {
        let mut i: usize = 0;
        while i < self.actions.len()
            invariant
                i <= self.actions@.len(),
                forall|j: int| 0 <= j < i ==> self.actions@[j].id != id,
            decreases self.actions@.len() - i,
        {
            if self.actions[i].id.0 == id.0 {
                return Some(i);
            }
            i += 1;
        }
        None
    }

    /// The first action with the id, if any.
    pub fn get_by_id(&self, id: ActionId) -> (r: Result<Option<Action>, RepositoryError>)
        ensures
            r matches Ok(v) && match v {
                Some(a) => exists|i: int| is_first_action(self.entries(), id, i) && a == self.entries()[i],
                None => !has_action(self.entries(), id),
            },
    {
        match self.position(id) {
            Some(i) => Ok(Some(self.actions[i].clone())),
            None => Ok(None),
        }
    }

    /// Every action, in the order they were created.
    pub fn list(&self) -> (r: Result<Vec<Action>, RepositoryError>)
        ensures
            r matches Ok(v) && v@ == self.entries(),
    {
        let mut out: Vec<Action> = Vec::new();
        let mut i: usize = 0;
        while i < self.actions.len()
            invariant
                i <= self.actions@.len(),
                out@ == self.actions@.take(i as int),
            decreases self.actions@.len() - i,
        {
            out.push(self.actions[i].clone());
            proof {
                assert(self.actions@.take(i + 1) == self.actions@.take(i as int).push(
                    self.actions@[i as int],
                ));
            }
            i += 1;
        }
        proof {
            assert(self.actions@.take(i as int) == self.actions@);
        }
        Ok(out)
    }

    /// Replaces the first action with the same id at `now`, keeping its
    /// creation time; `None` when there is none.
    pub fn update_at(&mut self, action: Action, now: i64) -> (r: Result<Option<Action>, RepositoryError>)
        ensures
            final(self).next_id() == old(self).next_id(),
            r matches Ok(v) && match v {
                Some(x) => exists|i: int|
                    is_first_action(old(self).entries(), action.id, i) && x == action_updated(
                        old(self).entries()[i],
                        action,
                        now,
                    ) && final(self).entries() == old(self).entries().update(i, x),
                None => !has_action(old(self).entries(), action.id) && final(self).entries()
                    == old(self).entries(),
            },
            old(self).wf() ==> final(self).wf(),
    {
        match self.position(action.id) {
            Some(i) => {
                let created_at = self.actions[i].created_at;
                let stored = Action { created_at, updated_at: now, ..action };
                let ghost before = self.actions@;
                self.actions.set(i, stored.clone());
                proof {
                    assert(is_first_action(before, action.id, i as int));
                    assert(stored == action_updated(before[i as int], action, now));
                    if action_ids_ordered(before, self.next_id) {
                        assert forall|a: int, b: int|
                            0 <= a < b < self.actions@.len() implies self.actions@[a].id.0
                            < self.actions@[b].id.0 by {
                            assert(before[a].id.0 < before[b].id.0);
                        }
                    }
                }
                Ok(Some(stored))
            },
            None => Ok(None),
        }
    }

    /// Replaces the first action with the same id, stamped now.
    pub fn update(&mut self, action: Action) -> (r: Result<Option<Action>, RepositoryError>)
        ensures
            final(self).next_id() == old(self).next_id(),
            r matches Ok(v) && match v {
                Some(x) => exists|i: int, now: i64|
                    is_first_action(old(self).entries(), action.id, i) && x == action_updated(
                        old(self).entries()[i],
                        action,
                        now,
                    ) && final(self).entries() == old(self).entries().update(i, x),
                None => !has_action(old(self).entries(), action.id) && final(self).entries()
                    == old(self).entries(),
            },
            old(self).wf() ==> final(self).wf(),
    {
        let now = now_micros();
        self.update_at(action, now)
    }

    /// Removes every action with the id; reports whether there was one.
    pub fn delete(&mut self, id: ActionId) -> (r: Result<bool, RepositoryError>)
        ensures
            final(self).next_id() == old(self).next_id(),
            final(self).entries() == old(self).entries().filter(action_other_than(id)),
            r matches Ok(b) && b == has_action(old(self).entries(), id),
            old(self).wf() ==> final(self).wf(),
    {
        let ghost s = self.actions@;
        let mut kept: Vec<Action> = Vec::new();
        let mut found = false;
        let mut i: usize = 0;
        let n = self.actions.len();
        while i < n
            invariant
                i <= n,
                n == s.len(),
                s == self.actions@,
                self.next_id == old(self).next_id,
                s == old(self).actions@,
                kept@ == s.take(i as int).filter(action_other_than(id)),
                found == has_action(s.take(i as int), id),
            decreases n - i,
        {
            proof {
                crate::seqs::lemma_take_one_more_filter(s, i as int, action_other_than(id));
            }
            if self.actions[i].id.0 == id.0 {
                found = true;
            } else {
                kept.push(self.actions[i].clone());
            }
            proof {
                assert(s.take(i + 1)[i as int] == s[i as int]);
                assert forall|j: int| 0 <= j < i implies #[trigger] s.take(i + 1)[j] == s.take(
                    i as int,
                )[j] by {}
                if has_action(s.take(i + 1), id) && !has_action(s.take(i as int), id) {
                    let j = choose|j: int| 0 <= j < i + 1 && #[trigger] s.take(i + 1)[j].id == id;
                    assert(j == i);
                }
            }
            i += 1;
        }
        proof {
            assert(s.take(n as int) == s);
            lemma_filter_keeps_action_order(s, action_other_than(id), self.next_id);
        }
        self.actions = kept;
        Ok(found)
    }
}

/// Filtering keeps the ids ordered and below the next id.
pub proof fn lemma_filter_keeps_action_order(s: Seq<Action>, pred: spec_fn(Action) -> bool, next: u32)
    ensures
        action_ids_ordered(s, next) ==> action_ids_ordered(s.filter(pred), next),
    decreases s.len(),
{
    if s.len() > 0 && action_ids_ordered(s, next) {
        let init = s.drop_last();
        lemma_filter_keeps_action_order(init, pred, next);
        assert(s == init.push(s.last()));
        init.lemma_filter_push(s.last(), pred);
        let f = init.filter(pred);
        assert forall|i: int| 0 <= i < f.len() implies #[trigger] f[i].id.0 < s.last().id.0 by {
            assert(f.contains(f[i]));
            init.lemma_filter_contains_rev(pred, f[i]);
            let j = choose|j: int| 0 <= j < init.len() && init[j] == f[i];
            assert(s[j] == init[j]);
        }
    }
}

/// Edits the actions and counts the edits, so that the parts of the
/// server that cache actions know when to reload them.
pub struct ActionService {
    repo: InMemoryActionRepository,
    revision: u64,
}

impl ActionService {
    pub closed spec fn repo(&self) -> InMemoryActionRepository {
        self.repo
    }

    pub closed spec fn revision_spec(&self) -> u64 {
        self.revision
    }

    pub fn new(repo: InMemoryActionRepository) -> (r: Self)
        ensures
            r.repo() == repo,
            r.revision_spec() == 0,
    {
        ActionService { repo, revision: 0 }
    }

    /// How many edits succeeded so far.
    pub fn revision(&self) -> (r: u64)
        ensures
            r == self.revision_spec(),
    {
        self.revision
    }

    fn bump(&mut self)
        ensures
            final(self).revision_spec() == old(self).revision_spec().wrapping_add(1),
            final(self).repo() == old(self).repo(),
    {
        self.revision = self.revision.wrapping_add(1);
    }

    pub fn create(&mut self, name: &str, kind: ActionKind, enabled: bool) -> (r: Result<
        Action,
        ActionServiceError,
    >)
        ensures
            r matches Ok(a) && {
                &&& a.id.0 == old(self).repo().next_id()
                &&& a.name@ == name@
                &&& a.kind == kind
                &&& a.enabled == enabled
                &&& final(self).repo().entries() == old(self).repo().entries().push(a)
            },
            final(self).repo().next_id() == old(self).repo().next_id().wrapping_add(1),
            final(self).revision_spec() == old(self).revision_spec().wrapping_add(1),
            old(self).repo().wf() && old(self).repo().next_id() < u32::MAX ==> final(self).repo().wf(),
    {
        let action = match self.repo.create(name, kind, enabled) {
            Ok(a) => a,
            Err(e) => {
                return Err(ActionServiceError::Repo(e));
            },
        };
        self.bump();
        Ok(action)
    }

    pub fn get(&self, id: ActionId) -> (r: Result<Option<Action>, ActionServiceError>)
        ensures
            r matches Ok(v) && match v {
                Some(a) => exists|i: int|
                    is_first_action(self.repo().entries(), id, i) && a == self.repo().entries()[i],
                None => !has_action(self.repo().entries(), id),
            },
    {
        match self.repo.get_by_id(id) {
            Ok(v) => {
                proof {
                    if v is Some {
                        let i = choose|i: int|
                            is_first_action(self.repo.entries(), id, i) && v->0
                                == self.repo.entries()[i];
                        assert(is_first_action(self.repo().entries(), id, i) && v->0
                            == self.repo().entries()[i]);
                    }
                }
                Ok(v)
            },
            Err(e) => Err(ActionServiceError::Repo(e)),
        }
    }

    pub fn list(&self) -> (r: Result<Vec<Action>, ActionServiceError>)
        ensures
            r matches Ok(v) && v@ == self.repo().entries(),
    {
        match self.repo.list() {
            Ok(v) => Ok(v),
            Err(e) => Err(ActionServiceError::Repo(e)),
        }
    }

    /// Updates an action; an unknown id is refused and changes nothing.
    pub fn update(&mut self, action: Action) -> (r: Result<(), ActionServiceError>)
        ensures
            final(self).repo().next_id() == old(self).repo().next_id(),
            match r {
                Ok(()) => {
                    &&& has_action(old(self).repo().entries(), action.id)
                    &&& final(self).revision_spec() == old(self).revision_spec().wrapping_add(1)
                    &&& exists|i: int, now: i64|
                        is_first_action(old(self).repo().entries(), action.id, i)
                            && final(self).repo().entries() == old(self).repo().entries().update(
                            i,
                            action_updated(old(self).repo().entries()[i], action, now),
                        )
                },
                Err(ActionServiceError::ActionNotFound) => {
                    &&& !has_action(old(self).repo().entries(), action.id)
                    &&& final(self).repo().entries() == old(self).repo().entries()
                    &&& final(self).revision_spec() == old(self).revision_spec()
                },
                Err(_) => false,
            },
            old(self).repo().wf() ==> final(self).repo().wf(),
    {
        let ghost old_entries = self.repo.entries();
        let ghost a = action;
        let found = match self.repo.update(action) {
            Ok(v) => v,
            Err(e) => {
                return Err(ActionServiceError::Repo(e));
            },
        };
        if found.is_none() {
            return Err(ActionServiceError::ActionNotFound);
        }
        let ghost (i, now) = choose|i: int, now: i64|
            is_first_action(old_entries, a.id, i) && found->0 == action_updated(
                old_entries[i],
                a,
                now,
            ) && self.repo.entries() == old_entries.update(i, found->0);
        proof {
            assert(old_entries[i].id == a.id);
        }
        self.bump();
        proof {
            assert(is_first_action(old_entries, a.id, i) && self.repo().entries()
                == old_entries.update(i, action_updated(old_entries[i], a, now)));
        }
        Ok(())
    }

    /// Deletes an action; an unknown id is refused.
    pub fn delete(&mut self, id: ActionId) -> (r: Result<(), ActionServiceError>)
        ensures
            final(self).repo().next_id() == old(self).repo().next_id(),
            final(self).repo().entries() == old(self).repo().entries().filter(action_other_than(id)),
            match r {
                Ok(()) => {
                    &&& has_action(old(self).repo().entries(), id)
                    &&& final(self).revision_spec() == old(self).revision_spec().wrapping_add(1)
                },
                Err(ActionServiceError::ActionNotFound) => {
                    &&& !has_action(old(self).repo().entries(), id)
                    &&& final(self).revision_spec() == old(self).revision_spec()
                },
                Err(_) => false,
            },
            old(self).repo().wf() ==> final(self).repo().wf(),
    {
        let found = match self.repo.delete(id) {
            Ok(b) => b,
            Err(e) => {
                return Err(ActionServiceError::Repo(e));
            },
        };
        if !found {
            return Err(ActionServiceError::ActionNotFound);
        }
        self.bump();
        Ok(())
    }
}

} // verus!
