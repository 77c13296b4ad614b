//! The roulette queue: entries, their statuses and the in-memory repository.

use vstd::prelude::*;

use crate::clock::now_micros;
use crate::error::{QueueServiceError, RepositoryError};
use crate::ids::{QueueEntryId, RouletteSlotId, UserId};

verus! {

broadcast use vstd::seq_lib::group_seq_properties, vstd::seq::group_seq_axioms;

/// Lifecycle status of a queue entry.
#[derive(Clone, Copy, Debug, PartialEq, Eq, Structural)]
pub enum QueueStatus {
    Pending,
    Spinning,
    Completed,
    Error,
    Cancelled,
}

/// One viewer waiting for (or done with) a roulette spin.
#[derive(Debug)]
pub struct QueueEntry {
    pub id: QueueEntryId,
    pub user_id: UserId,
    pub user_name: String,
    pub status: QueueStatus,
    pub result_slot_id: Option<RouletteSlotId>,
    pub created_at: i64,
    pub updated_at: i64,
}

impl Clone for QueueEntry {
    fn clone(&self) -> (r: Self)
        ensures
            r == *self,
    {
        QueueEntry {
            id: self.id,
            user_id: self.user_id,
            user_name: self.user_name.clone(),
            status: self.status,
            result_slot_id: self.result_slot_id,
            created_at: self.created_at,
            updated_at: self.updated_at,
        }
    }
}

impl QueueEntry {
    pub fn new(
        id: QueueEntryId,
        user_id: UserId,
        user_name: &str,
        status: QueueStatus,
        result_slot_id: Option<RouletteSlotId>,
        created_at: i64,
        updated_at: i64,
    ) -> (r: Self)
        ensures
            r.id == id,
            r.user_id == user_id,
            r.user_name@ == user_name@,
            r.status == status,
            r.result_slot_id == result_slot_id,
            r.created_at == created_at,
            r.updated_at == updated_at,
    {
        QueueEntry {
            id,
            user_id,
            user_name: user_name.to_owned(),
            status,
            result_slot_id,
            created_at,
            updated_at,
        }
    }
}

/// Number of entries in each status.
#[derive(Clone, Copy, Debug, PartialEq, Eq, Structural)]
pub struct QueueStats {
    pub pending: usize,
    pub spinning: usize,
    pub completed: usize,
    pub error: usize,
    pub cancelled: usize,
}

impl QueueStats {
    pub fn new(
        pending: usize,
        spinning: usize,
        completed: usize,
        error: usize,
        cancelled: usize,
    ) -> (r: Self)
        ensures
            r == (QueueStats { pending, spinning, completed, error, cancelled }),
    {
        QueueStats { pending, spinning, completed, error, cancelled }
    }
}

/// What an attempt to start the next spin found.
#[derive(Debug)]
pub enum DequeueOutcome {
    Picked(QueueEntry),
    AlreadyActive,
    Empty,
}

/// What a conditional status change found.
#[derive(Debug)]
pub enum StatusUpdateOutcome {
    Updated(QueueEntry),
    NotFound,
    StatusMismatch,
}

/// `i` is the first position of `s` holding an entry in status `st`.
pub open spec fn is_first_with_status(s: Seq<QueueEntry>, st: QueueStatus, i: int) -> bool {
    &&& 0 <= i < s.len()
    &&& s[i].status == st
    &&& forall|j: int| 0 <= j < i ==> s[j].status != st
}

pub open spec fn has_status(s: Seq<QueueEntry>, st: QueueStatus) -> bool {
    exists|i: int| 0 <= i < s.len() && s[i].status == st
}

/// Position of the entry the next spin takes: the first errored entry,
/// else the first pending one.
pub open spec fn next_position(s: Seq<QueueEntry>) -> Option<int> {
    if has_status(s, QueueStatus::Error) {
        Some(choose|i: int| is_first_with_status(s, QueueStatus::Error, i))
    } else if has_status(s, QueueStatus::Pending) {
        Some(choose|i: int| is_first_with_status(s, QueueStatus::Pending, i))
    } else {
        None
    }
}

/// `i` is the first position of `s` holding the entry with identifier `id`.
pub open spec fn is_first_with_id(s: Seq<QueueEntry>, id: QueueEntryId, i: int) -> bool {
    &&& 0 <= i < s.len()
    &&& s[i].id == id
    &&& forall|j: int| 0 <= j < i ==> s[j].id != id
}

pub open spec fn has_id(s: Seq<QueueEntry>, id: QueueEntryId) -> bool {
    exists|i: int| 0 <= i < s.len() && s[i].id == id
}

/// Position of the first entry with identifier `id`.
pub open spec fn position_of(s: Seq<QueueEntry>, id: QueueEntryId) -> Option<int> {
    if has_id(s, id) {
        Some(choose|i: int| is_first_with_id(s, id, i))
    } else {
        None
    }
}

/// Whether `e` belongs on a page filtered by `status` and starting after `cursor`.
pub open spec fn on_page(e: QueueEntry, status: Option<QueueStatus>, cursor: Option<QueueEntryId>) -> bool {
    &&& match cursor {
        Some(c) => e.id.0 > c.0,
        None => true,
    }
    &&& match status {
        Some(st) => e.status == st,
        None => true,
    }
}

/// At most `n` leading elements of `s`.
pub open spec fn prefix_of_len<A>(s: Seq<A>, n: int) -> Seq<A> {
    if n >= s.len() {
        s
    } else {
        s.take(n)
    }
}

/// The page `list` returns.
pub open spec fn page(
    s: Seq<QueueEntry>,
    status: Option<QueueStatus>,
    cursor: Option<QueueEntryId>,
    limit: usize,
) -> Seq<QueueEntry> {
    prefix_of_len(s.filter(page_filter(status, cursor)), limit as int)
}

/// The filter of a page as a predicate.
pub open spec fn page_filter(status: Option<QueueStatus>, cursor: Option<QueueEntryId>) -> spec_fn(
    QueueEntry,
) -> bool {
    |e: QueueEntry| on_page(e, status, cursor)
}

/// Number of entries of `s` in status `st`.
pub open spec fn count_status(s: Seq<QueueEntry>, st: QueueStatus) -> nat {
    s.filter(status_filter(st)).len()
}

/// Membership in status `st` as a predicate.
pub open spec fn status_filter(st: QueueStatus) -> spec_fn(QueueEntry) -> bool {
    |e: QueueEntry| e.status == st
}

/// Whether `e` is a spin that started before `cutoff` and never finished.
pub open spec fn timed_out(e: QueueEntry, cutoff: i64) -> bool {
    e.status == QueueStatus::Spinning && e.updated_at < cutoff
}

/// `e` turned into an errored entry at time `now`.
pub open spec fn as_errored(e: QueueEntry, now: i64) -> QueueEntry {
    QueueEntry { status: QueueStatus::Error, updated_at: now, ..e }
}

/// The entries after marking timed-out spins as errored at time `now`.
pub open spec fn after_timeouts(s: Seq<QueueEntry>, cutoff: i64, now: i64) -> Seq<QueueEntry> {
    s.map_values(|e: QueueEntry| if timed_out(e, cutoff) { as_errored(e, now) } else { e })
}

/// The entries `mark_timed_out` reports.
pub open spec fn timed_out_report(s: Seq<QueueEntry>, cutoff: i64, now: i64) -> Seq<QueueEntry> {
    s.filter(timeout_filter(cutoff)).map_values(error_stamp(now))
}

/// Whether `e` survives a purge of finished entries older than `cutoff`.
pub open spec fn survives_purge(e: QueueEntry, cutoff: i64) -> bool {
    !((e.status == QueueStatus::Completed || e.status == QueueStatus::Cancelled) && e.updated_at
        < cutoff)
}

/// Survival of a purge as a predicate.
pub open spec fn purge_filter(cutoff: i64) -> spec_fn(QueueEntry) -> bool {
    |e: QueueEntry| survives_purge(e, cutoff)
}

/// Timing out as a predicate.
pub open spec fn timeout_filter(cutoff: i64) -> spec_fn(QueueEntry) -> bool {
    |e: QueueEntry| timed_out(e, cutoff)
}

/// Turning an entry into an errored one at `now`, as a function.
pub open spec fn error_stamp(now: i64) -> spec_fn(QueueEntry) -> QueueEntry {
    |e: QueueEntry| as_errored(e, now)
}

/// The in-memory queue: entries in the order they were enqueued.
pub struct InMemoryQueueRepository {
    entries: Vec<QueueEntry>,
    next_id: u32,
}

impl InMemoryQueueRepository {
    /// The entries, in enqueue order.
    pub closed spec fn entries(&self) -> Seq<QueueEntry> {
        self.entries@
    }

    /// The identifier the next enqueued entry receives.
    pub closed spec fn next_id(&self) -> u32 {
        self.next_id
    }

    /// Identifiers are strictly increasing in enqueue order and all below
    /// the next identifier.
    pub open spec fn wf(&self) -> bool {
        &&& forall|i: int, j: int|
            0 <= i < j < self.entries().len() ==> self.entries()[i].id.0 < self.entries()[j].id.0
        &&& forall|i: int| 0 <= i < self.entries().len() ==> self.entries()[i].id.0 < self.next_id()
    }

    pub fn new() -> (r: Self)
        ensures
            r.entries() == Seq::<QueueEntry>::empty(),
            r.next_id() == 1,
            r.wf(),
    {
        InMemoryQueueRepository { entries: Vec::new(), next_id: 1 }
    }

    /// Appends a pending entry with the next identifier.
    pub fn enqueue(&mut self, user_id: UserId, user_name: &str) -> (r: Result<QueueEntry, RepositoryError>)
        ensures
            r matches Ok(e) && {
                &&& e.id.0 == old(self).next_id()
                &&& e.user_id == user_id
                &&& e.user_name@ == user_name@
                &&& e.status == QueueStatus::Pending
                &&& e.result_slot_id is None
                &&& e.created_at == e.updated_at
                &&& final(self).entries() == old(self).entries().push(e)
            },
            final(self).next_id() == old(self).next_id().wrapping_add(1),
            old(self).wf() && old(self).next_id() < u32::MAX ==> final(self).wf(),
    {
        let id = self.next_id;
        self.next_id = self.next_id.wrapping_add(1);
        let now = now_micros();
        let entry = QueueEntry::new(
            QueueEntryId::new(id),
            user_id,
            user_name,
            QueueStatus::Pending,
            None,
            now,
            now,
        );
        self.entries.push(entry.clone());
        Ok(entry)
    }

    fn find_status(&self, st: QueueStatus) -> (r: Option<usize>)
        ensures
            match r {
                Some(i) => is_first_with_status(self.entries(), st, i as int),
                None => !has_status(self.entries(), st),
            },
    {
        let mut i: usize = 0;
        while i < self.entries.len()
            invariant
                i <= self.entries@.len(),
                forall|j: int| 0 <= j < i ==> self.entries@[j].status != st,
            decreases self.entries@.len() - i,
        {
            if self.entries[i].status == st {
                return Some(i);
            }
            i += 1;
        }
        None
    }

    fn next_pos(&self) -> (r: Option<usize>)
        ensures
            match r {
                Some(i) => next_position(self.entries()) == Some(i as int) && i < self.entries().len(),
                None => next_position(self.entries()) is None,
            },
    {
        let s = Ghost(self.entries());
        match self.find_status(QueueStatus::Error) {
            Some(i) => {
                proof {
                    let k = choose|k: int| is_first_with_status(s@, QueueStatus::Error, k);
                    assert(k == i as int) by {
                        if k < i { } else if k > i { }
                    }
                }
                Some(i)
            },
            None => match self.find_status(QueueStatus::Pending) {
                Some(i) => {
                    proof {
                        let k = choose|k: int| is_first_with_status(s@, QueueStatus::Pending, k);
                        assert(k == i as int) by {
                            if k < i { } else if k > i { }
                        }
                    }
                    Some(i)
                },
                None => None,
            },
        }
    }

    /// The entry the next spin would take, without taking it.
    pub fn peek_next(&self) -> (r: Result<Option<QueueEntry>, RepositoryError>)
        ensures
            r matches Ok(o) && match next_position(self.entries()) {
                Some(i) => o == Some(self.entries()[i]),
                None => o is None,
            },
    {
        match self.next_pos() {
            Some(i) => Ok(Some(self.entries[i].clone())),
            None => Ok(None),
        }
    }

    fn has_spinning(&self) -> (r: bool)
        ensures
            r == has_status(self.entries(), QueueStatus::Spinning),
    {
        self.find_status(QueueStatus::Spinning).is_some()
    }

    /// Starts the next spin on `slot_id`: refuses while a spin is active,
    /// else marks the next entry (first errored, else first pending) as
    /// spinning.
    pub fn dequeue_next_with_slot(&mut self, slot_id: RouletteSlotId) -> (r: Result<
        DequeueOutcome,
        RepositoryError,
    >)
        ensures
            r is Ok,
            has_status(old(self).entries(), QueueStatus::Spinning) ==> {
                &&& r matches Ok(DequeueOutcome::AlreadyActive)
                &&& final(self).entries() == old(self).entries()
            },
            !has_status(old(self).entries(), QueueStatus::Spinning) ==> match next_position(
                old(self).entries(),
            ) {
                None => {
                    &&& r matches Ok(DequeueOutcome::Empty)
                    &&& final(self).entries() == old(self).entries()
                },
                Some(i) => r matches Ok(DequeueOutcome::Picked(e)) && {
                    &&& e == (QueueEntry {
                        status: QueueStatus::Spinning,
                        result_slot_id: Some(slot_id),
                        updated_at: e.updated_at,
                        ..old(self).entries()[i]
                    })
                    &&& final(self).entries() == old(self).entries().update(i, e)
                },
            },
            final(self).next_id() == old(self).next_id(),
            old(self).wf() ==> final(self).wf(),
    {
        if self.has_spinning() {
            return Ok(DequeueOutcome::AlreadyActive);
        }
        match self.next_pos() {
            None => Ok(DequeueOutcome::Empty),
            Some(pos) => {
                let now = now_micros();
                let mut entry = self.entries[pos].clone();
                entry.status = QueueStatus::Spinning;
                entry.result_slot_id = Some(slot_id);
                entry.updated_at = now;
                self.entries.set(pos, entry.clone());
                Ok(DequeueOutcome::Picked(entry))
            },
        }
    }

    /// A page of entries: those after `cursor` in status `status` (either
    /// filter optional), at most `limit` of them, in enqueue order.
    pub fn list(
        &self,
        status: Option<QueueStatus>,
        cursor: Option<QueueEntryId>,
        limit: usize,
    ) -> (r: Result<Vec<QueueEntry>, RepositoryError>)
        ensures
            r matches Ok(v) && v@ == page(self.entries(), status, cursor, limit),
    {
        let ghost s = self.entries();
        let mut out: Vec<QueueEntry> = Vec::new();
        let mut i: usize = 0;
        let n = self.entries.len();
        while i < n && out.len() < limit
            invariant
                n == s.len(),
                s == self.entries@,
                i <= n,
                out@ == s.take(i as int).filter(page_filter(status, cursor)),
                out@.len() <= limit,
                out@.len() == limit ==> out@ == page(s, status, cursor, limit),
            decreases n - i,
        {
            let e = &self.entries[i];
            let keep = match cursor {
                Some(c) => e.id.0 > c.0,
                None => true,
            } && match status {
                Some(st) => e.status == st,
                None => true,
            };
            proof {
                crate::seqs::lemma_take_one_more_filter(s, i as int, page_filter(status, cursor));
                assert(*e == s[i as int]);
                assert(keep == on_page(s[i as int], status, cursor));
            }
            let ghost old_out = out@;
            if keep {
                let c = e.clone();
                assert(c == s[i as int]);
                out.push(c);
                assert(out@ == old_out.push(s[i as int]));
            }
            assert(out@ == s.take(i + 1).filter(page_filter(status, cursor)));
            i += 1;
            proof {
                if out@.len() == limit {
                    lemma_filter_prefix_page(s, page_filter(status, cursor), i as int, limit as int);
                }
            }
        }
        proof {
            if out@.len() < limit {
                assert(s.take(n as int) == s);
            }
        }
        Ok(out)
    }

    /// The first entry with identifier `id`.
    pub fn get_by_id(&self, id: QueueEntryId) -> (r: Result<Option<QueueEntry>, RepositoryError>)
        ensures
            r matches Ok(o) && match position_of(self.entries(), id) {
                Some(i) => o == Some(self.entries()[i]),
                None => o is None,
            },
    {
        match self.find_id(id) {
            Some(i) => Ok(Some(self.entries[i].clone())),
            None => Ok(None),
        }
    }

    fn find_id(&self, id: QueueEntryId) -> (r: Option<usize>)
        ensures
            match r {
                Some(i) => position_of(self.entries(), id) == Some(i as int) && i < self.entries().len(),
                None => position_of(self.entries(), id) is None,
            },
    {
        let mut i: usize = 0;
        while i < self.entries.len()
            invariant
                i <= self.entries@.len(),
                forall|j: int| 0 <= j < i ==> self.entries@[j].id != id,
            decreases self.entries@.len() - i,
        {
            if self.entries[i].id == id {
                proof {
                    assert(is_first_with_id(self.entries@, id, i as int));
                    let k = choose|k: int| is_first_with_id(self.entries@, id, k);
                    assert(k == i as int) by {
                        if k < i { } else if k > i { }
                    }
                }
                return Some(i);
            }
            i += 1;
        }
        None
    }

    /// Moves the entry `id` from `expected` to `status`, if it is in `expected`.
    pub fn update_status_if(
        &mut self,
        id: QueueEntryId,
        expected: QueueStatus,
        status: QueueStatus,
    ) -> (r: Result<StatusUpdateOutcome, RepositoryError>)
        ensures
            r is Ok,
            final(self).next_id() == old(self).next_id(),
            match position_of(old(self).entries(), id) {
                None => r matches Ok(StatusUpdateOutcome::NotFound) && final(self).entries()
                    == old(self).entries(),
                Some(i) => if old(self).entries()[i].status != expected {
                    r matches Ok(StatusUpdateOutcome::StatusMismatch) && final(self).entries()
                        == old(self).entries()
                } else {
                    r matches Ok(StatusUpdateOutcome::Updated(e)) && {
                        &&& e == (QueueEntry {
                            status,
                            updated_at: e.updated_at,
                            ..old(self).entries()[i]
                        })
                        &&& final(self).entries() == old(self).entries().update(i, e)
                    }
                },
            },
            old(self).wf() ==> final(self).wf(),
    {
        match self.find_id(id) {
            None => Ok(StatusUpdateOutcome::NotFound),
            Some(i) => {
                if self.entries[i].status != expected {
                    return Ok(StatusUpdateOutcome::StatusMismatch);
                }
                let now = now_micros();
                let mut entry = self.entries[i].clone();
                entry.status = status;
                entry.updated_at = now;
                self.entries.set(i, entry.clone());
                Ok(StatusUpdateOutcome::Updated(entry))
            },
        }
    }

    /// Finishes the spin of entry `id`: only a spinning entry can be completed.
    pub fn complete(&mut self, id: QueueEntryId) -> (r: Result<QueueEntry, QueueServiceError>)
        ensures
            final(self).next_id() == old(self).next_id(),
            match position_of(old(self).entries(), id) {
                None => r matches Err(QueueServiceError::NotFound) && final(self).entries()
                    == old(self).entries(),
                Some(i) => if old(self).entries()[i].status != QueueStatus::Spinning {
                    r matches Err(QueueServiceError::NotSpinning) && final(self).entries()
                        == old(self).entries()
                } else {
                    r matches Ok(e) && {
                        &&& e == (QueueEntry {
                            status: QueueStatus::Completed,
                            updated_at: e.updated_at,
                            ..old(self).entries()[i]
                        })
                        &&& final(self).entries() == old(self).entries().update(i, e)
                    }
                },
            },
            old(self).wf() ==> final(self).wf(),
    {
        match self.update_status_if(id, QueueStatus::Spinning, QueueStatus::Completed) {
            Ok(StatusUpdateOutcome::Updated(e)) => Ok(e),
            Ok(StatusUpdateOutcome::NotFound) => Err(QueueServiceError::NotFound),
            Ok(StatusUpdateOutcome::StatusMismatch) => Err(QueueServiceError::NotSpinning),
            Err(e) => Err(QueueServiceError::Repo(e)),
        }
    }

    /// Cancels entry `id`: only a pending or errored entry can be cancelled.
    pub fn cancel(&mut self, id: QueueEntryId) -> (r: Result<QueueEntry, QueueServiceError>)
        ensures
            final(self).next_id() == old(self).next_id(),
            match position_of(old(self).entries(), id) {
                None => r matches Err(QueueServiceError::NotFound) && final(self).entries()
                    == old(self).entries(),
                Some(i) => if old(self).entries()[i].status != QueueStatus::Pending
                    && old(self).entries()[i].status != QueueStatus::Error {
                    r matches Err(QueueServiceError::NotCancellable) && final(self).entries()
                        == old(self).entries()
                } else {
                    r matches Ok(e) && {
                        &&& e == (QueueEntry {
                            status: QueueStatus::Cancelled,
                            updated_at: e.updated_at,
                            ..old(self).entries()[i]
                        })
                        &&& final(self).entries() == old(self).entries().update(i, e)
                    }
                },
            },
            old(self).wf() ==> final(self).wf(),
    {
        let current = match self.find_id(id) {
            None => {
                return Err(QueueServiceError::NotFound);
            },
            Some(i) => self.entries[i].status,
        };
        if current != QueueStatus::Pending && current != QueueStatus::Error {
            return Err(QueueServiceError::NotCancellable);
        }
        match self.update_status_if(id, current, QueueStatus::Cancelled) {
            Ok(StatusUpdateOutcome::Updated(e)) => Ok(e),
            Ok(StatusUpdateOutcome::NotFound) => Err(QueueServiceError::NotFound),
            Ok(StatusUpdateOutcome::StatusMismatch) => Err(QueueServiceError::NotCancellable),
            Err(e) => Err(QueueServiceError::Repo(e)),
        }
    }

    /// How many entries are in each status.
    pub fn count_by_status(&self) -> (r: Result<QueueStats, RepositoryError>)
        ensures
            r matches Ok(st) && {
                &&& st.pending == count_status(self.entries(), QueueStatus::Pending)
                &&& st.spinning == count_status(self.entries(), QueueStatus::Spinning)
                &&& st.completed == count_status(self.entries(), QueueStatus::Completed)
                &&& st.error == count_status(self.entries(), QueueStatus::Error)
                &&& st.cancelled == count_status(self.entries(), QueueStatus::Cancelled)
            },
    {
        let ghost s = self.entries();
        let mut stats = QueueStats::new(0, 0, 0, 0, 0);
        let mut i: usize = 0;
        let n = self.entries.len();
        while i < n
            invariant
                n == s.len(),
                s == self.entries@,
                i <= n,
                stats.pending == count_status(s.take(i as int), QueueStatus::Pending),
                stats.spinning == count_status(s.take(i as int), QueueStatus::Spinning),
                stats.completed == count_status(s.take(i as int), QueueStatus::Completed),
                stats.error == count_status(s.take(i as int), QueueStatus::Error),
                stats.cancelled == count_status(s.take(i as int), QueueStatus::Cancelled),
                stats.pending + stats.spinning + stats.completed + stats.error + stats.cancelled
                    == i,
            decreases n - i,
        {
            proof {
                crate::seqs::lemma_take_one_more_filter(s, i as int, status_filter(QueueStatus::Pending));
                crate::seqs::lemma_take_one_more_filter(s, i as int, status_filter(QueueStatus::Spinning));
                crate::seqs::lemma_take_one_more_filter(s, i as int, status_filter(QueueStatus::Completed));
                crate::seqs::lemma_take_one_more_filter(s, i as int, status_filter(QueueStatus::Error));
                crate::seqs::lemma_take_one_more_filter(s, i as int, status_filter(QueueStatus::Cancelled));
            }
            match self.entries[i].status {
                QueueStatus::Pending => stats.pending = stats.pending + 1,
                QueueStatus::Spinning => stats.spinning = stats.spinning + 1,
                QueueStatus::Completed => stats.completed = stats.completed + 1,
                QueueStatus::Error => stats.error = stats.error + 1,
                QueueStatus::Cancelled => stats.cancelled = stats.cancelled + 1,
            }
            i += 1;
        }
        proof {
            assert(s.take(n as int) == s);
        }
        Ok(stats)
    }

    /// Marks every spin that started before `cutoff` as errored, stamping
    /// it with `now`, and reports the entries it changed.
    pub fn mark_timed_out_at(&mut self, cutoff: i64, now: i64) -> (r: Vec<QueueEntry>)
        ensures
            final(self).entries() == after_timeouts(old(self).entries(), cutoff, now),
            r@ == timed_out_report(old(self).entries(), cutoff, now),
            final(self).entries().len() == old(self).entries().len(),
            forall|i: int|
                0 <= i < old(self).entries().len() && old(self).entries()[i].status
                    != QueueStatus::Spinning ==> #[trigger] final(self).entries()[i] == old(
                    self,
                ).entries()[i],
            forall|i: int|
                0 <= i < old(self).entries().len() && old(self).entries()[i].status
                    == QueueStatus::Spinning && old(self).entries()[i].updated_at < cutoff
                    ==> #[trigger] final(self).entries()[i] == (QueueEntry {
                    status: QueueStatus::Error,
                    updated_at: now,
                    ..old(self).entries()[i]
                }),
            forall|j: int|
                0 <= j < r@.len() ==> (#[trigger] r@[j]).status == QueueStatus::Error && exists|
                    i: int,
                |
                    0 <= i < old(self).entries().len() && old(self).entries()[i].status
                        == QueueStatus::Spinning && old(self).entries()[i].updated_at < cutoff
                        && r@[j].id == old(self).entries()[i].id,
            final(self).next_id() == old(self).next_id(),
            old(self).wf() ==> final(self).wf(),
    {
        let ghost s = self.entries();
        let mut result: Vec<QueueEntry> = Vec::new();
        let mut i: usize = 0;
        let n = self.entries.len();
        while i < n
            invariant
                n == s.len(),
                self.entries@.len() == n,
                self.next_id == old(self).next_id,
                s == old(self).entries@,
                i <= n,
                forall|j: int| 0 <= j < i ==> self.entries@[j] == after_timeouts(s, cutoff, now)[j],
                forall|j: int| i <= j < n ==> self.entries@[j] == s[j],
                result@ == s.take(i as int).filter(timeout_filter(cutoff)).map_values(error_stamp(now)),
            decreases n - i,
        {
            proof {
                crate::seqs::lemma_take_one_more_filter(s, i as int, timeout_filter(cutoff));
            }
            if self.entries[i].status == QueueStatus::Spinning && self.entries[i].updated_at < cutoff {
                let mut e = self.entries[i].clone();
                e.status = QueueStatus::Error;
                e.updated_at = now;
                self.entries.set(i, e.clone());
                result.push(e);
            }
            i += 1;
        }
        proof {
            assert(s.take(n as int) == s);
            assert(self.entries@ == after_timeouts(s, cutoff, now));
            lemma_timeouts_touch_only_stale_spins(s, cutoff, now);
        }
        result
    }

    /// Marks every spin that started before `cutoff` as errored at the
    /// current time and reports the entries it changed.
    pub fn mark_timed_out(&mut self, cutoff: i64) -> (r: Result<Vec<QueueEntry>, RepositoryError>)
        ensures
            r matches Ok(v) && exists|now: i64|
                {
                    &&& final(self).entries() == after_timeouts(old(self).entries(), cutoff, now)
                    &&& v@ == timed_out_report(old(self).entries(), cutoff, now)
                },
            final(self).entries().len() == old(self).entries().len(),
            forall|i: int|
                0 <= i < old(self).entries().len() && old(self).entries()[i].status
                    != QueueStatus::Spinning ==> #[trigger] final(self).entries()[i] == old(
                    self,
                ).entries()[i],
            forall|i: int|
                0 <= i < old(self).entries().len() && old(self).entries()[i].status
                    == QueueStatus::Spinning && old(self).entries()[i].updated_at < cutoff
                    ==> (#[trigger] final(self).entries()[i]).status == QueueStatus::Error,
            r matches Ok(v) ==> forall|j: int|
                0 <= j < v@.len() ==> (#[trigger] v@[j]).status == QueueStatus::Error && exists|
                    i: int,
                |
                    0 <= i < old(self).entries().len() && old(self).entries()[i].status
                        == QueueStatus::Spinning && old(self).entries()[i].updated_at < cutoff
                        && v@[j].id == old(self).entries()[i].id,
            final(self).next_id() == old(self).next_id(),
            old(self).wf() ==> final(self).wf(),
    {
        let now = now_micros();
        let v = self.mark_timed_out_at(cutoff, now);
        Ok(v)
    }

    /// Removes completed and cancelled entries last touched before `cutoff`
    /// and returns how many it removed.
    pub fn purge_completed_cancelled(&mut self, cutoff: i64) -> (r: Result<usize, RepositoryError>)
        ensures
            final(self).entries() == old(self).entries().filter(purge_filter(cutoff)),
            r matches Ok(k) && k == old(self).entries().len() - final(self).entries().len(),
            final(self).next_id() == old(self).next_id(),
            old(self).wf() ==> final(self).wf(),
    {
        let ghost s = self.entries();
        let n = self.entries.len();
        let mut kept: Vec<QueueEntry> = Vec::new();
        let mut i: usize = 0;
        while i < n
            invariant
                n == s.len(),
                s == self.entries@,
                i <= n,
                kept@ == s.take(i as int).filter(purge_filter(cutoff)),
            decreases n - i,
        {
            proof {
                crate::seqs::lemma_take_one_more_filter(s, i as int, purge_filter(cutoff));
            }
            let e = &self.entries[i];
            if !((e.status == QueueStatus::Completed || e.status == QueueStatus::Cancelled)
                && e.updated_at < cutoff) {
                kept.push(e.clone());
            }
            i += 1;
        }
        proof {
            assert(s.take(n as int) == s);
            broadcast use vstd::seq_lib::group_filter_ensures;
        }
        let removed = n - kept.len();
        self.entries = kept;
        proof {
            if old(self).wf() {
                lemma_filter_keeps_increasing_ids(s, purge_filter(cutoff), self.next_id);
            }
        }
        Ok(removed)
    }
}


/// A timeout sweep touches stale spins only: an entry that is not spinning
/// keeps every field, a spin touched at or after `cutoff` keeps every
/// field, and a spin last touched before `cutoff` becomes errored at `now`
/// with its other fields kept. Every reported entry is such a spin, now
/// errored, so a sweep over a queue without stale spins reports nothing.
pub proof fn lemma_timeouts_touch_only_stale_spins(s: Seq<QueueEntry>, cutoff: i64, now: i64)
    ensures
        after_timeouts(s, cutoff, now).len() == s.len(),
        forall|i: int|
            0 <= i < s.len() && s[i].status != QueueStatus::Spinning ==> #[trigger] after_timeouts(
                s,
                cutoff,
                now,
            )[i] == s[i],
        forall|i: int|
            0 <= i < s.len() && s[i].status == QueueStatus::Spinning && s[i].updated_at >= cutoff
                ==> #[trigger] after_timeouts(s, cutoff, now)[i] == s[i],
        forall|i: int|
            0 <= i < s.len() && s[i].status == QueueStatus::Spinning && s[i].updated_at < cutoff
                ==> #[trigger] after_timeouts(s, cutoff, now)[i] == (QueueEntry {
                status: QueueStatus::Error,
                updated_at: now,
                ..s[i]
            }),
        forall|j: int|
            0 <= j < timed_out_report(s, cutoff, now).len() ==> {
                let e = #[trigger] timed_out_report(s, cutoff, now)[j];
                &&& e.status == QueueStatus::Error
                &&& e.updated_at == now
                &&& exists|i: int|
                    0 <= i < s.len() && s[i].status == QueueStatus::Spinning && s[i].updated_at
                        < cutoff && e == (QueueEntry {
                        status: QueueStatus::Error,
                        updated_at: now,
                        ..s[i]
                    })
            },
        (forall|i: int|
            0 <= i < s.len() ==> !(s[i].status == QueueStatus::Spinning && s[i].updated_at
                < cutoff)) ==> timed_out_report(s, cutoff, now).len() == 0,
{
    let f = s.filter(timeout_filter(cutoff));
    let rep = timed_out_report(s, cutoff, now);
    assert forall|j: int| 0 <= j < rep.len() implies {
        let e = #[trigger] rep[j];
        &&& e.status == QueueStatus::Error
        &&& e.updated_at == now
        &&& exists|i: int|
            0 <= i < s.len() && s[i].status == QueueStatus::Spinning && s[i].updated_at < cutoff
                && e == (QueueEntry { status: QueueStatus::Error, updated_at: now, ..s[i] })
    } by {
        s.lemma_filter_pred(timeout_filter(cutoff), j);
        assert(f.contains(f[j]));
        s.lemma_filter_contains_rev(timeout_filter(cutoff), f[j]);
        let i = choose|i: int| 0 <= i < s.len() && s[i] == f[j];
        assert(rep[j] == as_errored(s[i], now));
    }
    if forall|i: int|
        0 <= i < s.len() ==> !(s[i].status == QueueStatus::Spinning && s[i].updated_at < cutoff) {
        lemma_filter_none(s, timeout_filter(cutoff));
    }
}

/// Once a prefix of `s` already filters to `k` elements, the first `k`
/// elements of the whole filter are exactly those.
pub proof fn lemma_filter_prefix_page(
    s: Seq<QueueEntry>,
    pred: spec_fn(QueueEntry) -> bool,
    i: int,
    k: int,
)
    requires
        0 <= i <= s.len(),
        s.take(i).filter(pred).len() == k,
    ensures
        prefix_of_len(s.filter(pred), k) == s.take(i).filter(pred),
{
    assert(s == s.take(i) + s.skip(i));
    Seq::filter_distributes_over_add(s.take(i), s.skip(i), pred);
    let a = s.take(i).filter(pred);
    let b = s.skip(i).filter(pred);
    assert((a + b).take(k) == a);
}

/// Filtering keeps identifiers strictly increasing and below the bound.
pub proof fn lemma_filter_keeps_increasing_ids(
    s: Seq<QueueEntry>,
    pred: spec_fn(QueueEntry) -> bool,
    bound: u32,
)
    requires
        forall|i: int, j: int| 0 <= i < j < s.len() ==> s[i].id.0 < s[j].id.0,
        forall|i: int| 0 <= i < s.len() ==> s[i].id.0 < bound,
    ensures
        forall|i: int, j: int|
            0 <= i < j < s.filter(pred).len() ==> s.filter(pred)[i].id.0 < s.filter(pred)[j].id.0,
        forall|i: int| 0 <= i < s.filter(pred).len() ==> s.filter(pred)[i].id.0 < bound,
    decreases s.len(),
{
    reveal(Seq::filter);
    broadcast use vstd::seq_lib::group_filter_ensures;
    if s.len() > 0 {
        let t = s.drop_last();
        lemma_filter_keeps_increasing_ids(t, pred, bound);
        let ft = t.filter(pred);
        assert forall|i: int| 0 <= i < ft.len() implies ft[i].id.0 < s.last().id.0 by {
            assert(ft.contains(ft[i]));
            t.lemma_filter_contains_rev(pred, ft[i]);
            let k = choose|k: int| 0 <= k < t.len() && t[k] == ft[i];
            assert(s[k] == t[k]);
        }
    }
}

/// Every entry is in exactly one status: the counts per status add up to
/// the number of entries.
pub proof fn lemma_status_counts_sum(s: Seq<QueueEntry>)
    ensures
        count_status(s, QueueStatus::Pending) + count_status(s, QueueStatus::Spinning)
            + count_status(s, QueueStatus::Completed) + count_status(s, QueueStatus::Error)
            + count_status(s, QueueStatus::Cancelled) == s.len(),
    decreases s.len(),
{
    if s.len() > 0 {
        let init = s.drop_last();
        lemma_status_counts_sum(init);
        assert(s == init.push(s.last()));
        init.lemma_filter_push(s.last(), status_filter(QueueStatus::Pending));
        init.lemma_filter_push(s.last(), status_filter(QueueStatus::Spinning));
        init.lemma_filter_push(s.last(), status_filter(QueueStatus::Completed));
        init.lemma_filter_push(s.last(), status_filter(QueueStatus::Error));
        init.lemma_filter_push(s.last(), status_filter(QueueStatus::Cancelled));
    } else {
        assert(s.filter(status_filter(QueueStatus::Pending)).len() == 0);
    }
}

/// Where only position `i` satisfies `pred`, the filter keeps one element.
proof fn lemma_filter_single(s: Seq<QueueEntry>, pred: spec_fn(QueueEntry) -> bool, i: int)
    requires
        0 <= i < s.len(),
        pred(s[i]),
        forall|j: int| 0 <= j < s.len() && j != i ==> !pred(s[j]),
    ensures
        s.filter(pred).len() == 1,
    decreases s.len(),
{
    let init = s.drop_last();
    assert(s == init.push(s.last()));
    init.lemma_filter_push(s.last(), pred);
    if i == s.len() - 1 {
        lemma_filter_none(init, pred);
    } else {
        lemma_filter_single(init, pred, i);
    }
}

/// Where no element satisfies `pred`, the filter is empty.
proof fn lemma_filter_none(s: Seq<QueueEntry>, pred: spec_fn(QueueEntry) -> bool)
    requires
        forall|j: int| 0 <= j < s.len() ==> !pred(s[j]),
    ensures
        s.filter(pred).len() == 0,
    decreases s.len(),
{
    if s.len() > 0 {
        let init = s.drop_last();
        assert(s == init.push(s.last()));
        init.lemma_filter_push(s.last(), pred);
        lemma_filter_none(init, pred);
    }
}

/// One spin at a time: starting a spin while none is active leaves
/// exactly one spinning entry.
pub proof fn lemma_single_spin(s: Seq<QueueEntry>, i: int, e: QueueEntry)
    requires
        !has_status(s, QueueStatus::Spinning),
        0 <= i < s.len(),
        e.status == QueueStatus::Spinning,
    ensures
        count_status(s.update(i, e), QueueStatus::Spinning) == 1,
{
    let t = s.update(i, e);
    assert forall|j: int| 0 <= j < t.len() && j != i implies !status_filter(QueueStatus::Spinning)(
        t[j],
    ) by {
        assert(t[j] == s[j]);
    }
    lemma_filter_single(t, status_filter(QueueStatus::Spinning), i);
}

/// Where some entry has the id, a first one has it.
proof fn lemma_first_with_id_exists(s: Seq<QueueEntry>, id: QueueEntryId)
    requires
        has_id(s, id),
    ensures
        exists|i: int| is_first_with_id(s, id, i),
    decreases s.len(),
{
    let w = choose|i: int| 0 <= i < s.len() && s[i].id == id;
    if s[0].id == id {
        assert(is_first_with_id(s, id, 0));
    } else {
        let t = s.skip(1);
        assert(t[w - 1].id == id);
        lemma_first_with_id_exists(t, id);
        let k = choose|k: int| is_first_with_id(t, id, k);
        assert forall|j: int| 0 <= j < k + 1 implies s[j].id != id by {
            if j > 0 {
                assert(s[j] == t[j - 1]);
            }
        }
        assert(is_first_with_id(s, id, k + 1));
    }
}

/// The position a lookup by id finds is the first entry with that id.
pub proof fn lemma_position_of_first(s: Seq<QueueEntry>, id: QueueEntryId)
    ensures
        position_of(s, id) matches Some(i) ==> is_first_with_id(s, id, i),
{
    if has_id(s, id) {
        lemma_first_with_id_exists(s, id);
    }
}

} // verus!
