//! Starting a spin: the slot is drawn by weight, then the next queue entry
//! is marked as spinning on it.

use vstd::prelude::*;

use crate::catalog::{InMemoryRarityRepository, InMemoryRouletteSlotRepository, Rarity, RouletteSlot};
use crate::error::QueueServiceError;
use crate::events::SpinEvent;
use crate::ids::RarityId;
use crate::queue::{has_status, next_position, DequeueOutcome, InMemoryQueueRepository, QueueEntry, QueueStatus};

verus! {

/// The summed weight of the slots.
pub open spec fn weight_sum(s: Seq<RouletteSlot>) -> nat
    decreases s.len(),
{
    if s.len() == 0 {
        0
    } else {
        weight_sum(s.drop_last()) + s.last().weight as nat
    }
}

/// Slot `i` covers the point `target` of the weight line: the slots before
/// it weigh at most `target`, and together with it more than `target`.
pub open spec fn covers(s: Seq<RouletteSlot>, i: int, target: int) -> bool {
    &&& 0 <= i < s.len()
    &&& weight_sum(s.take(i)) <= target < weight_sum(s.take(i + 1))
}

/// The point of the weight line a roll lands on.
pub open spec fn roll_target(s: Seq<RouletteSlot>, roll: u64) -> int {
    (roll as int) % (weight_sum(s) as int)
}

/// Adding one slot adds its weight.
proof fn lemma_weight_step(s: Seq<RouletteSlot>, i: int)
    requires
        0 <= i < s.len(),
    ensures
        weight_sum(s.take(i + 1)) == weight_sum(s.take(i)) + s[i].weight,
{
    assert(s.take(i + 1).drop_last() =~= s.take(i));
}

/// Slots weigh at most their number times the largest weight.
proof fn lemma_weight_bound(s: Seq<RouletteSlot>)
    ensures
        weight_sum(s) <= s.len() * 0xffff_ffff_ffff_ffffnat,
    decreases s.len(),
{
    if s.len() > 0 {
        lemma_weight_bound(s.drop_last());
        let n = s.len();
        assert((n - 1) * 0xffff_ffff_ffff_ffffnat + 0xffff_ffff_ffff_ffffnat == n
            * 0xffff_ffff_ffff_ffffnat) by (nonlinear_arith);
    }
}

/// The total weight of a list of slots.
fn total_weight(slots: &Vec<RouletteSlot>) -> (r: u128)
    ensures
        r == weight_sum(slots@),
{
    let mut acc: u128 = 0;
    let mut i: usize = 0;
    while i < slots.len()
        invariant
            i <= slots@.len(),
            acc == weight_sum(slots@.take(i as int)),
        decreases slots@.len() - i,
    {
        proof {
            lemma_weight_step(slots@, i as int);
            lemma_weight_bound(slots@.take(i + 1));
            let k: nat = (i + 1) as nat;
            assert(k * 0xffff_ffff_ffff_ffffnat <= 0x1_0000_0000_0000_0000nat * 0xffff_ffff_ffff_ffffnat)
                by (nonlinear_arith)
                requires
                    k <= 0x1_0000_0000_0000_0000nat,
            ;
        }
        acc = acc + slots[i].weight as u128;
        i += 1;
    }
    proof {
        assert(slots@.take(i as int) =~= slots@);
    }
    acc
}

/// Draws a slot by weight: the slot that covers `roll` modulo the total
/// weight, or `None` when the slots weigh nothing.
pub fn pick_slot(slots: &Vec<RouletteSlot>, roll: u64) -> (r: Option<usize>)
    ensures
        r is None <==> weight_sum(slots@) == 0,
        r matches Some(i) ==> covers(slots@, i as int, roll_target(slots@, roll)),
{
    let total = total_weight(slots);
    if total == 0 {
        return None;
    }
    let target: u128 = (roll as u128) % total;
    let mut acc: u128 = 0;
    let mut i: usize = 0;
    while i < slots.len()
        invariant
            i <= slots@.len(),
            total == weight_sum(slots@),
            total > 0,
            target == roll_target(slots@, roll),
            target < total,
            acc == weight_sum(slots@.take(i as int)),
            acc <= target,
        decreases slots@.len() - i,
    {
        proof {
            lemma_weight_step(slots@, i as int);
            lemma_prefix_le_total(slots@, i + 1);
        }
        let next = acc + slots[i].weight as u128;
        if target < next {
            return Some(i);
        }
        acc = next;
        i += 1;
    }
    proof {
        assert(slots@.take(i as int) =~= slots@);
    }
    None
}

/// A prefix weighs at most the whole.
proof fn lemma_prefix_le_total(s: Seq<RouletteSlot>, k: int)
    requires
        0 <= k <= s.len(),
    ensures
        weight_sum(s.take(k)) <= weight_sum(s),
    decreases s.len() - k,
{
    if k < s.len() {
        lemma_weight_step(s, k);
        lemma_prefix_le_total(s, k + 1);
    } else {
        assert(s.take(k) =~= s);
    }
}

/// Longer prefixes weigh at least as much.
proof fn lemma_prefix_monotone(s: Seq<RouletteSlot>, a: int, b: int)
    requires
        0 <= a <= b <= s.len(),
    ensures
        weight_sum(s.take(a)) <= weight_sum(s.take(b)),
    decreases b - a,
{
    if a < b {
        lemma_weight_step(s, b - 1);
        lemma_prefix_monotone(s, a, b - 1);
    }
}

/// The draw is well defined: a point of the weight line is covered by one
/// slot at most, and a covering slot has a positive weight.
pub proof fn lemma_draw_unique(s: Seq<RouletteSlot>, i: int, j: int, target: int)
    requires
        covers(s, i, target),
        covers(s, j, target),
    ensures
        i == j,
        s[i].weight > 0,
{
    lemma_weight_step(s, i);
    if i < j {
        lemma_prefix_monotone(s, i + 1, j);
    } else if j < i {
        lemma_prefix_monotone(s, j + 1, i);
    }
}

/// The first rarity with the id.
pub open spec fn rarity_of(s: Seq<Rarity>, id: RarityId) -> Option<Rarity>
    decreases s.len(),
{
    if s.len() == 0 {
        None
    } else if s[0].id == id {
        Some(s[0])
    } else {
        rarity_of(s.drop_first(), id)
    }
}

/// A rarity is found by its id and by nothing else: what is found is a
/// rarity of the list with exactly that id (the first one, where several
/// have it), and nothing is found only when no rarity has the id. Where a
/// rarity stands in the list plays no part.
pub proof fn lemma_rarity_of_finds_id(s: Seq<Rarity>, id: RarityId)
    ensures
        rarity_of(s, id) matches Some(r) ==> r.id == id && s.contains(r),
        rarity_of(s, id) is None <==> forall|i: int| 0 <= i < s.len() ==> s[i].id != id,
        forall|j: int|
            0 <= j < s.len() && s[j].id == id && (forall|k: int| 0 <= k < j ==> s[k].id != id)
                ==> rarity_of(s, id) == Some(#[trigger] s[j]),
    decreases s.len(),
{
    if s.len() > 0 {
        let t = s.drop_first();
        lemma_rarity_of_finds_id(t, id);
        if s[0].id == id {
            assert(s.contains(s[0]));
            assert forall|j: int|
                0 <= j < s.len() && s[j].id == id && (forall|k: int| 0 <= k < j ==> s[k].id != id)
                    implies rarity_of(s, id) == Some(#[trigger] s[j]) by {
                if j > 0 {
                    assert(s[0].id != id);
                }
            }
        } else {
            if let Some(r) = rarity_of(t, id) {
                let i = choose|i: int| 0 <= i < t.len() && t[i] == r;
                assert(s[i + 1] == r);
            }
            assert(rarity_of(t, id) is None <==> forall|i: int| 0 <= i < s.len() ==> s[i].id != id)
                by {
                if forall|i: int| 0 <= i < t.len() ==> t[i].id != id {
                    assert forall|i: int| 0 <= i < s.len() implies s[i].id != id by {
                        if i > 0 {
                            assert(s[i] == t[i - 1]);
                        }
                    }
                }
                if forall|i: int| 0 <= i < s.len() ==> s[i].id != id {
                    assert forall|i: int| 0 <= i < t.len() implies t[i].id != id by {
                        assert(t[i] == s[i + 1]);
                    }
                }
            }
            assert forall|j: int|
                0 <= j < s.len() && s[j].id == id && (forall|k: int| 0 <= k < j ==> s[k].id != id)
                    implies rarity_of(s, id) == Some(#[trigger] s[j]) by {
                assert(j > 0);
                assert(t[j - 1] == s[j]);
                assert forall|k: int| 0 <= k < j - 1 implies t[k].id != id by {
                    assert(t[k] == s[k + 1]);
                }
            }
        }
    }
}

fn find_rarity(rarities: &Vec<Rarity>, id: RarityId) -> (r: Option<Rarity>)
    ensures
        r == rarity_of(rarities@, id),
        r matches Some(x) ==> x.id == id && rarities@.contains(x),
        r is None <==> forall|i: int| 0 <= i < rarities@.len() ==> rarities@[i].id != id,
{
    proof {
        lemma_rarity_of_finds_id(rarities@, id);
    }
    let mut i: usize = 0;
    proof {
        assert(rarities@.skip(0) =~= rarities@);
    }
    while i < rarities.len()
        invariant
            i <= rarities@.len(),
            rarity_of(rarities@, id) == rarity_of(rarities@.skip(i as int), id),
        decreases rarities@.len() - i,
    {
        proof {
            assert(rarities@.skip(i as int).drop_first() =~= rarities@.skip(i + 1));
        }
        if rarities[i].id == id {
            return Some(rarities[i].clone());
        }
        i += 1;
    }
    proof {
        assert(rarities@.skip(i as int) =~= Seq::<Rarity>::empty());
    }
    None
}

/// What starting a spin on `slot` does to the queue `before`, given the
/// rarities: refused for an unknown rarity, while a spin is active, or on
/// an empty queue (the queue unchanged each time); else the next entry
/// spins on the slot and the start is announced.
pub open spec fn spin_outcome(
    before: Seq<QueueEntry>,
    after: Seq<QueueEntry>,
    rarities: Seq<Rarity>,
    slot: RouletteSlot,
    r: Result<(QueueEntry, RouletteSlot, SpinEvent), QueueServiceError>,
) -> bool {
    match rarity_of(rarities, slot.rarity_id) {
        None => r matches Err(QueueServiceError::RarityNotFound) && after == before,
        Some(rarity) => if has_status(before, QueueStatus::Spinning) {
            r matches Err(QueueServiceError::AlreadyActive) && after == before
        } else {
            match next_position(before) {
                None => r matches Err(QueueServiceError::QueueEmpty) && after == before,
                Some(p) => r matches Ok((e, s, ev)) && {
                    &&& s == slot
                    &&& e == (QueueEntry {
                        status: QueueStatus::Spinning,
                        result_slot_id: Some(slot.id),
                        updated_at: e.updated_at,
                        ..before[p]
                    })
                    &&& after == before.update(p, e)
                    &&& ev == (SpinEvent::Started {
                        entry_id: e.id,
                        slot_name: slot.name,
                        slot_rarity: rarity.name,
                        user_name: e.user_name,
                    })
                },
            }
        },
    }
}

/// Starts the next spin with the roll `roll`: draws the slot by weight
/// (`NoSlots` when the slots weigh nothing), then marks the next entry as
/// spinning on it and returns the entry, the slot and the event that
/// announces the start.
pub fn dequeue_next_with_roll(
    queue: &mut InMemoryQueueRepository,
    slots: &InMemoryRouletteSlotRepository,
    rarities: &InMemoryRarityRepository,
    roll: u64,
) -> (r: Result<(QueueEntry, RouletteSlot, SpinEvent), QueueServiceError>)
    ensures
        final(queue).next_id() == old(queue).next_id(),
        old(queue).wf() ==> final(queue).wf(),
        weight_sum(slots.entries()) == 0 ==> {
            &&& r matches Err(QueueServiceError::NoSlots)
            &&& final(queue).entries() == old(queue).entries()
        },
        weight_sum(slots.entries()) > 0 ==> exists|i: int|
            covers(slots.entries(), i, roll_target(slots.entries(), roll)) && spin_outcome(
                old(queue).entries(),
                final(queue).entries(),
                rarities.entries(),
                slots.entries()[i],
                r,
            ),
        r matches Ok((e, sl, ev)) ==> (ev matches SpinEvent::Started { slot_rarity, .. }
            && exists|k: int|
            0 <= k < rarities.entries().len() && rarities.entries()[k].id == sl.rarity_id
                && rarities.entries()[k].name == slot_rarity),
        r matches Err(QueueServiceError::RarityNotFound) ==> exists|i: int|
            covers(slots.entries(), i, roll_target(slots.entries(), roll)) && forall|k: int|
                0 <= k < rarities.entries().len() ==> rarities.entries()[k].id
                    != slots.entries()[i].rarity_id,
{
    let all = match slots.load_all() {
        Ok(v) => v,
        Err(e) => return Err(QueueServiceError::Repo(e)),
    };
    let i = match pick_slot(&all, roll) {
        Some(i) => i,
        None => return Err(QueueServiceError::NoSlots),
    };
    let slot = all[i].clone();
    let kinds = match rarities.load_all() {
        Ok(v) => v,
        Err(e) => return Err(QueueServiceError::Repo(e)),
    };
    let rarity = match find_rarity(&kinds, slot.rarity_id) {
        Some(r) => r,
        None => {
            assert(covers(slots.entries(), i as int, roll_target(slots.entries(), roll)));
            return Err(QueueServiceError::RarityNotFound);
        },
    };
    let result = match queue.dequeue_next_with_slot(slot.id) {
        Ok(DequeueOutcome::Picked(e)) => {
            let event = SpinEvent::Started {
                entry_id: e.id,
                slot_name: slot.name.clone(),
                slot_rarity: rarity.name,
                user_name: e.user_name.clone(),
            };
            Ok((e, slot, event))
        },
        Ok(DequeueOutcome::AlreadyActive) => Err(QueueServiceError::AlreadyActive),
        Ok(DequeueOutcome::Empty) => Err(QueueServiceError::QueueEmpty),
        Err(e) => Err(QueueServiceError::Repo(e)),
    };
    assert(covers(slots.entries(), i as int, roll_target(slots.entries(), roll)));
    result
}

/// Starts the next spin on a slot drawn by weight with a random roll; see
/// `dequeue_next_with_roll` for what happens for each roll.
pub fn dequeue_next(
    queue: &mut InMemoryQueueRepository,
    slots: &InMemoryRouletteSlotRepository,
    rarities: &InMemoryRarityRepository,
) -> (r: Result<(QueueEntry, RouletteSlot, SpinEvent), QueueServiceError>)
    ensures
        final(queue).next_id() == old(queue).next_id(),
        old(queue).wf() ==> final(queue).wf(),
        weight_sum(slots.entries()) == 0 ==> {
            &&& r matches Err(QueueServiceError::NoSlots)
            &&& final(queue).entries() == old(queue).entries()
        },
        weight_sum(slots.entries()) > 0 ==> exists|i: int, roll: u64|
            covers(slots.entries(), i, roll_target(slots.entries(), roll)) && spin_outcome(
                old(queue).entries(),
                final(queue).entries(),
                rarities.entries(),
                slots.entries()[i],
                r,
            ),
{
    let roll = crate::random::random_u64();
    dequeue_next_with_roll(queue, slots, rarities, roll)
}

} // verus!
