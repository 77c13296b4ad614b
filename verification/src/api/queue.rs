//! Bodies and parameters of the queue endpoints.

use vstd::prelude::*;

use crate::catalog::RouletteSlot;
use crate::clock::{rfc3339_text, to_rfc3339};
use crate::ids::{QueueEntryId, RouletteSlotId, UserId};
use crate::queue::{QueueEntry, QueueStatus};

verus! {

/// A request to queue a known user.
#[derive(Debug)]
pub struct EnqueueRequest {
    pub user_id: UserId,
    pub user_name: String,
}

/// A request to queue a guest under a name.
#[derive(Debug)]
pub struct AnonymousEnqueueRequest {
    pub name: String,
}

/// A queue entry, as listed; the slot name is filled in where the entry
/// has a result.
#[derive(Debug)]
pub struct QueueEntryResponse {
    pub id: QueueEntryId,
    pub user_id: UserId,
    pub user_name: String,
    pub status: QueueStatus,
    pub result_slot_id: Option<RouletteSlotId>,
    pub slot_name: Option<String>,
    pub created_at: String,
    pub updated_at: String,
}

impl QueueEntryResponse {
    pub fn from(entry: &QueueEntry) -> (r: Self)
        ensures
            r.id == entry.id,
            r.user_id == entry.user_id,
            r.user_name@ == entry.user_name@,
            r.status == entry.status,
            r.result_slot_id == entry.result_slot_id,
            r.slot_name is None,
            r.created_at@ == rfc3339_text(entry.created_at),
            r.updated_at@ == rfc3339_text(entry.updated_at),
    {
        QueueEntryResponse {
            id: entry.id,
            user_id: entry.user_id,
            user_name: entry.user_name.clone(),
            status: entry.status,
            result_slot_id: entry.result_slot_id,
            slot_name: None,
            created_at: to_rfc3339(entry.created_at),
            updated_at: to_rfc3339(entry.updated_at),
        }
    }
}

/// The entry that starts spinning and the slot it will land on.
#[derive(Debug)]
pub struct NextResponse {
    pub entry: QueueEntryResponse,
    pub slot: RouletteSlot,
}

/// A page of the queue and where the next page starts.
#[derive(Debug)]
pub struct QueueListResponse {
    pub entries: Vec<QueueEntryResponse>,
    pub next_cursor: Option<QueueEntryId>,
}

/// Where the page after `page` starts: after its last entry when the page
/// is full, else nowhere (there is nothing more).
pub open spec fn next_cursor_of(page: Seq<QueueEntry>, limit: usize) -> Option<QueueEntryId> {
    if page.len() == limit && page.len() > 0 {
        Some(page.last().id)
    } else {
        None
    }
}

/// Where the page after `page` starts.
pub fn next_cursor(page: &Vec<QueueEntry>, limit: usize) -> (r: Option<QueueEntryId>)
    ensures
        r == next_cursor_of(page@, limit),
{
    if page.len() == limit && page.len() > 0 {
        Some(page[page.len() - 1].id)
    } else {
        None
    }
}

/// The name of the first slot with the id, if any.
pub open spec fn slot_name_of(slots: Seq<RouletteSlot>, id: RouletteSlotId) -> Option<Seq<char>>
    decreases slots.len(),
{
    if slots.len() == 0 {
        None
    } else if slots[0].id == id {
        Some(slots[0].name@)
    } else {
        slot_name_of(slots.drop_first(), id)
    }
}

fn find_slot_name(slots: &Vec<RouletteSlot>, id: RouletteSlotId) -> (r: Option<String>)
    ensures
        match r {
            Some(n) => slot_name_of(slots@, id) == Some(n@),
            None => slot_name_of(slots@, id) is None,
        },
{
    let mut i: usize = 0;
    proof {
        assert(slots@.skip(0) =~= slots@);
    }
    while i < slots.len()
        invariant
            i <= slots@.len(),
            slot_name_of(slots@, id) == slot_name_of(slots@.skip(i as int), id),
        decreases slots@.len() - i,
    {
        proof {
            assert(slots@.skip(i as int).drop_first() =~= slots@.skip(i + 1));
        }
        if slots[i].id == id {
            return Some(slots[i].name.clone());
        }
        i += 1;
    }
    proof {
        assert(slots@.skip(i as int) =~= Seq::<RouletteSlot>::empty());
    }
    None
}

/// The slot name an entry is listed with: that of its result slot, where
/// it has one and the slot still exists.
pub open spec fn entry_slot_name(entry: QueueEntry, slots: Seq<RouletteSlot>) -> Option<Seq<char>> {
    match entry.result_slot_id {
        Some(id) => slot_name_of(slots, id),
        None => None,
    }
}

/// Whether `r` lists `entry` with the name of its result slot.
pub open spec fn lists_entry(r: QueueEntryResponse, entry: QueueEntry, slots: Seq<RouletteSlot>) -> bool {
    &&& r.id == entry.id
    &&& r.user_id == entry.user_id
    &&& r.user_name@ == entry.user_name@
    &&& r.status == entry.status
    &&& r.result_slot_id == entry.result_slot_id
    &&& match r.slot_name {
        Some(n) => entry_slot_name(entry, slots) == Some(n@),
        None => entry_slot_name(entry, slots) is None,
    }
    &&& r.created_at@ == rfc3339_text(entry.created_at)
    &&& r.updated_at@ == rfc3339_text(entry.updated_at)
}

/// An entry as listed, with the name of its result slot filled in.
pub fn entry_with_slot_name(entry: &QueueEntry, slots: &Vec<RouletteSlot>) -> (r: QueueEntryResponse)
    ensures
        lists_entry(r, *entry, slots@),
{
    let mut resp = QueueEntryResponse::from(entry);
    resp.slot_name = match entry.result_slot_id {
        Some(id) => find_slot_name(slots, id),
        None => None,
    };
    resp
}

/// A page of the queue as listed: each entry with its slot name, and
/// where the next page starts.
pub fn list_response(page: &Vec<QueueEntry>, limit: usize, slots: &Vec<RouletteSlot>) -> (r:
    QueueListResponse)
    ensures
        r.entries@.len() == page@.len(),
        forall|i: int| 0 <= i < page@.len() ==> lists_entry(#[trigger] r.entries@[i], page@[i], slots@),
        r.next_cursor == next_cursor_of(page@, limit),
{
    let mut entries: Vec<QueueEntryResponse> = Vec::new();
    let mut i: usize = 0;
    while i < page.len()
        invariant
            i <= page@.len(),
            entries@.len() == i,
            forall|k: int| 0 <= k < i ==> lists_entry(#[trigger] entries@[k], page@[k], slots@),
        decreases page@.len() - i,
    {
        entries.push(entry_with_slot_name(&page[i], slots));
        i += 1;
    }
    QueueListResponse { entries, next_cursor: next_cursor(page, limit) }
}

/// The filters of a queue listing.
#[derive(Debug)]
pub struct ListQuery {
    pub status: Option<QueueStatus>,
    pub limit: Option<usize>,
    pub cursor: Option<QueueEntryId>,
}

impl ListQuery {
    /// The page size: the one asked for, or the configured default.
    pub fn limit_or(&self, default_limit: usize) -> (r: usize)
        ensures
            r == match self.limit {
                Some(l) => l,
                None => default_limit,
            },
    {
        match self.limit {
            Some(l) => l,
            None => default_limit,
        }
    }
}

/// A queue entry named in a path.
#[derive(Debug)]
pub struct QueueIdParam {
    pub id: QueueEntryId,
}

} // verus!
