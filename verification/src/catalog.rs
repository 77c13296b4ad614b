//! The roulette catalog: rarities and the slots of the wheel, each kept in
//! an in-memory repository that numbers new items itself.

use vstd::prelude::*;

use crate::error::RepositoryError;
use crate::ids::{RarityId, RouletteSlotId};

verus! {

/// A rarity tier of the wheel.
#[derive(Debug)]
pub struct Rarity {
    pub id: RarityId,
    pub name: String,
    pub display_name: String,
    pub image: String,
    pub color: String,
}

impl Clone for Rarity {
    fn clone(&self) -> (r: Self)
        ensures
            r == *self,
    {
        Rarity {
            id: self.id,
            name: self.name.clone(),
            display_name: self.display_name.clone(),
            image: self.image.clone(),
            color: self.color.clone(),
        }
    }
}

/// Whether `r` holds the given id and texts.
pub open spec fn rarity_is(
    r: Rarity,
    id: u32,
    name: Seq<char>,
    display_name: Seq<char>,
    image: Seq<char>,
    color: Seq<char>,
) -> bool {
    &&& r.id.0 == id
    &&& r.name@ == name
    &&& r.display_name@ == display_name
    &&& r.image@ == image
    &&& r.color@ == color
}

impl Rarity {
    pub fn new(id: RarityId, name: &str, display_name: &str, image: &str, color: &str) -> (r: Self)
        ensures
            rarity_is(r, id.0, name@, display_name@, image@, color@),
    {
        Rarity {
            id,
            name: name.to_owned(),
            display_name: display_name.to_owned(),
            image: image.to_owned(),
            color: color.to_owned(),
        }
    }
}

/// Ids strictly increase along the sequence and stay below `next`.
pub open spec fn rarity_ids_ordered(s: Seq<Rarity>, next: u32) -> bool {
    &&& forall|i: int, j: int| 0 <= i < j < s.len() ==> s[i].id.0 < s[j].id.0
    &&& forall|i: int| 0 <= i < s.len() ==> s[i].id.0 < next
}

/// Whether `i` is the first position of a rarity with the given id.
pub open spec fn is_first_rarity(s: Seq<Rarity>, id: RarityId, i: int) -> bool {
    0 <= i < s.len() && s[i].id == id && forall|j: int| 0 <= j < i ==> s[j].id != id
}

/// Whether some rarity has the given id.
pub open spec fn has_rarity(s: Seq<Rarity>, id: RarityId) -> bool {
    exists|i: int| 0 <= i < s.len() && #[trigger] s[i].id == id
}

/// Whether a rarity has another id than `id`.
pub open spec fn rarity_other_than(id: RarityId) -> spec_fn(Rarity) -> bool {
    |r: Rarity| r.id != id
}

/// Rarities in memory, numbered from one.
pub struct InMemoryRarityRepository {
    rarities: Vec<Rarity>,
    next_id: u32,
}

impl InMemoryRarityRepository {
    pub closed spec fn entries(&self) -> Seq<Rarity> {
        self.rarities@
    }

    pub closed spec fn next_id(&self) -> u32 {
        self.next_id
    }

    pub open spec fn wf(&self) -> bool {
        rarity_ids_ordered(self.entries(), self.next_id())
    }

    pub fn new() -> (r: Self)
        ensures
            r.entries() == Seq::<Rarity>::empty(),
            r.next_id() == 1,
            r.wf(),
    {
        InMemoryRarityRepository { rarities: Vec::new(), next_id: 1 }
    }

    /// The four standard tiers: common, rare, epic and legendary.
    pub fn new_seeded() -> (r: Self)
        ensures
            r.entries().len() == 4,
            rarity_is(r.entries()[0], 1, "common"@, "Common"@, "common.png"@, "#9d9d9d"@),
            rarity_is(r.entries()[1], 2, "rare"@, "Rare"@, "rare.png"@, "#4CAF50"@),
            rarity_is(r.entries()[2], 3, "epic"@, "Epic"@, "epic.png"@, "#9C27B0"@),
            rarity_is(
                r.entries()[3],
                4,
                "legendary"@,
                "Legendary"@,
                "legendary.png"@,
                "#FFD700"@,
            ),
            r.next_id() == 5,
            r.wf(),
    {
        let mut rarities: Vec<Rarity> = Vec::new();
        rarities.push(Rarity::new(RarityId::new(1), "common", "Common", "common.png", "#9d9d9d"));
        rarities.push(Rarity::new(RarityId::new(2), "rare", "Rare", "rare.png", "#4CAF50"));
        rarities.push(Rarity::new(RarityId::new(3), "epic", "Epic", "epic.png", "#9C27B0"));
        rarities.push(
            Rarity::new(RarityId::new(4), "legendary", "Legendary", "legendary.png", "#FFD700"),
        );
        InMemoryRarityRepository { rarities, next_id: 5 }
    }

    /// A repository holding the given rarities, renumbered from one in
    /// their order; new ones continue after them.
    pub fn seed(rarities: Vec<Rarity>) -> (r: Self)
        requires
            rarities@.len() < u32::MAX,
        ensures
            r.entries().len() == rarities@.len(),
            forall|i: int|
                0 <= i < rarities@.len() ==> rarity_is(
                    #[trigger] r.entries()[i],
                    (i + 1) as u32,
                    rarities@[i].name@,
                    rarities@[i].display_name@,
                    rarities@[i].image@,
                    rarities@[i].color@,
                ),
            r.next_id() == rarities@.len() + 1,
            r.wf(),
    {
        let n = rarities.len();
        let mut assigned: Vec<Rarity> = Vec::new();
        let mut i: usize = 0;
        while i < n
            invariant
                i <= n,
                n == rarities@.len(),
                n < u32::MAX,
                assigned@.len() == i,
                forall|k: int|
                    0 <= k < i ==> rarity_is(
                        #[trigger] assigned@[k],
                        (k + 1) as u32,
                        rarities@[k].name@,
                        rarities@[k].display_name@,
                        rarities@[k].image@,
                        rarities@[k].color@,
                    ),
            decreases n - i,
        {
            let r = &rarities[i];
            let id = (i + 1) as u32;
            assigned.push(
                Rarity::new(
                    RarityId::new(id),
                    r.name.as_str(),
                    r.display_name.as_str(),
                    r.image.as_str(),
                    r.color.as_str(),
                ),
            );
            i += 1;
        }
        let next_id = (n + 1) as u32;
        InMemoryRarityRepository { rarities: assigned, next_id }
    }

    /// Every rarity, in the order they were added.
    pub fn load_all(&self) -> (r: Result<Vec<Rarity>, RepositoryError>)
        ensures
            r matches Ok(v) && v@ == self.entries(),
    {
        let mut out: Vec<Rarity> = Vec::new();
        let mut i: usize = 0;
        while i < self.rarities.len()
            invariant
                i <= self.rarities@.len(),
                out@ == self.rarities@.take(i as int),
            decreases self.rarities@.len() - i,
        {
            out.push(self.rarities[i].clone());
            proof {
                assert(self.rarities@.take(i + 1) == self.rarities@.take(i as int).push(
                    self.rarities@[i as int],
                ));
            }
            i += 1;
        }
        proof {
            assert(self.rarities@.take(i as int) == self.rarities@);
        }
        Ok(out)
    }

    /// Adds a rarity under the next id, whatever id it came with.
    pub fn save(&mut self, rarity: Rarity) -> (r: Result<Rarity, RepositoryError>)
        ensures
            r matches Ok(saved) && {
                &&& saved.id.0 == old(self).next_id()
                &&& saved.name == rarity.name
                &&& saved.display_name == rarity.display_name
                &&& saved.image == rarity.image
                &&& saved.color == rarity.color
                &&& final(self).entries() == old(self).entries().push(saved)
            },
            final(self).next_id() == old(self).next_id().wrapping_add(1),
            old(self).wf() && old(self).next_id() < u32::MAX ==> final(self).wf(),
    {
        let id = self.next_id;
        self.next_id = self.next_id.wrapping_add(1);
        let mut rarity = rarity;
        rarity.id = RarityId::new(id);
        self.rarities.push(rarity.clone());
        Ok(rarity)
    }

    /// Replaces the first rarity with the same id; `None` when there is none.
    pub fn update(&mut self, rarity: Rarity) -> (r: Result<Option<Rarity>, RepositoryError>)
        ensures
            final(self).next_id() == old(self).next_id(),
            r matches Ok(v) && match v {
                Some(x) => x == rarity && exists|i: int|
                    is_first_rarity(old(self).entries(), rarity.id, i) && final(self).entries()
                        == old(self).entries().update(i, rarity),
                None => !has_rarity(old(self).entries(), rarity.id) && final(self).entries() == old(self).entries(),
            },
            old(self).wf() ==> final(self).wf(),
    {
        let ghost s = self.rarities@;
        let mut i: usize = 0;
        while i < self.rarities.len()
            invariant
                i <= self.rarities@.len(),
                s == self.rarities@,
                self.next_id == old(self).next_id,
                s == old(self).rarities@,
                forall|j: int| 0 <= j < i ==> s[j].id != rarity.id,
            decreases self.rarities@.len() - i,
        {
            if self.rarities[i].id.0 == rarity.id.0 {
                proof {
                    assert(is_first_rarity(s, rarity.id, i as int));
                }
                self.rarities.set(i, rarity.clone());
                proof {
                    assert(self.rarities@ == s.update(i as int, rarity));
                    assert(is_first_rarity(old(self).entries(), rarity.id, i as int));
                    if rarity_ids_ordered(s, self.next_id) {
                        assert forall|a: int, b: int|
                            0 <= a < b < self.rarities@.len() implies self.rarities@[a].id.0
                            < self.rarities@[b].id.0 by {
                            assert(s[a].id.0 < s[b].id.0);
                        }
                    }
                }
                return Ok(Some(rarity));
            }
            i += 1;
        }
        Ok(None)
    }

    /// Removes every rarity with the id; reports whether there was one.
    pub fn delete(&mut self, id: RarityId) -> (r: Result<bool, RepositoryError>)
        ensures
            final(self).next_id() == old(self).next_id(),
            final(self).entries() == old(self).entries().filter(rarity_other_than(id)),
            r matches Ok(b) && b == has_rarity(old(self).entries(), id),
            old(self).wf() ==> final(self).wf(),
    {
        let ghost s = self.rarities@;
        let mut kept: Vec<Rarity> = Vec::new();
        let mut found = false;
        let mut i: usize = 0;
        let n = self.rarities.len();
        while i < n
            invariant
                i <= n,
                n == s.len(),
                s == self.rarities@,
                kept@ == s.take(i as int).filter(rarity_other_than(id)),
                found == has_rarity(s.take(i as int), id),
                self.next_id == old(self).next_id,
                s == old(self).rarities@,
            decreases n - i,
        {
            proof {
                crate::seqs::lemma_take_one_more_filter(s, i as int, rarity_other_than(id));
            }
            if self.rarities[i].id.0 == id.0 {
                found = true;
            } else {
                kept.push(self.rarities[i].clone());
            }
            proof {
                assert(s.take(i + 1)[i as int] == s[i as int]);
                assert forall|j: int| 0 <= j < i implies #[trigger] s.take(i + 1)[j] == s.take(
                    i as int,
                )[j] by {}
                if has_rarity(s.take(i + 1), id) && !has_rarity(s.take(i as int), id) {
                    let j = choose|j: int| 0 <= j < i + 1 && #[trigger] s.take(i + 1)[j].id == id;
                    assert(j == i);
                }
            }
            i += 1;
        }
        proof {
            assert(s.take(n as int) == s);
            lemma_filter_keeps_rarity_order(s, rarity_other_than(id), self.next_id);
        }
        self.rarities = kept;
        Ok(found)
    }
}

/// Filtering keeps the ids ordered and below the next id.
pub proof fn lemma_filter_keeps_rarity_order(s: Seq<Rarity>, pred: spec_fn(Rarity) -> bool, next: u32)
    ensures
        rarity_ids_ordered(s, next) ==> rarity_ids_ordered(s.filter(pred), next),
    decreases s.len(),
{
    if s.len() > 0 && rarity_ids_ordered(s, next) {
        let init = s.drop_last();
        lemma_filter_keeps_rarity_order(init, pred, next);
        assert(s == init.push(s.last()));
        init.lemma_filter_push(s.last(), pred);
        let f = init.filter(pred);
        assert forall|i: int| 0 <= i < f.len() implies #[trigger] f[i].id.0 < s.last().id.0 by {
            assert(f.contains(f[i]));
            init.lemma_filter_contains_rev(pred, f[i]);
            let j = choose|j: int| 0 <= j < init.len() && init[j] == f[i];
            assert(s[j] == init[j]);
        }
    }
}

/// A slot of the wheel: what it pays out, how rare it is, and its weight
/// in the draw.
#[derive(Debug)]
pub struct RouletteSlot {
    pub id: RouletteSlotId,
    pub name: String,
    pub rarity_id: RarityId,
    pub weight: u64,
    pub action: String,
}

impl Clone for RouletteSlot {
    fn clone(&self) -> (r: Self)
        ensures
            r == *self,
    {
        RouletteSlot {
            id: self.id,
            name: self.name.clone(),
            rarity_id: self.rarity_id,
            weight: self.weight,
            action: self.action.clone(),
        }
    }
}

/// Whether `r` holds the given id, name, rarity, weight and action.
pub open spec fn slot_is(
    r: RouletteSlot,
    id: u32,
    name: Seq<char>,
    rarity_id: u32,
    weight: u64,
    action: Seq<char>,
) -> bool {
    &&& r.id.0 == id
    &&& r.name@ == name
    &&& r.rarity_id.0 == rarity_id
    &&& r.weight == weight
    &&& r.action@ == action
}

impl RouletteSlot {
    pub fn new(id: RouletteSlotId, name: &str, rarity_id: RarityId, weight: u64, action: &str) -> (r: Self)
        ensures
            slot_is(r, id.0, name@, rarity_id.0, weight, action@),
    {
        RouletteSlot {
            id,
            name: name.to_owned(),
            rarity_id,
            weight,
            action: action.to_owned(),
        }
    }
}

/// Ids strictly increase along the sequence and stay below `next`.
pub open spec fn slot_ids_ordered(s: Seq<RouletteSlot>, next: u32) -> bool {
    &&& forall|i: int, j: int| 0 <= i < j < s.len() ==> s[i].id.0 < s[j].id.0
    &&& forall|i: int| 0 <= i < s.len() ==> s[i].id.0 < next
}

/// Whether `i` is the first position of a slot with the given id.
pub open spec fn is_first_slot(s: Seq<RouletteSlot>, id: RouletteSlotId, i: int) -> bool {
    0 <= i < s.len() && s[i].id == id && forall|j: int| 0 <= j < i ==> s[j].id != id
}

/// Whether some slot has the given id.
pub open spec fn has_slot(s: Seq<RouletteSlot>, id: RouletteSlotId) -> bool {
    exists|i: int| 0 <= i < s.len() && #[trigger] s[i].id == id
}

/// Whether a slot has another id than `id`.
pub open spec fn slot_other_than(id: RouletteSlotId) -> spec_fn(RouletteSlot) -> bool {
    |r: RouletteSlot| r.id != id
}

/// Roulette slots in memory, numbered from one.
pub struct InMemoryRouletteSlotRepository {
    slots: Vec<RouletteSlot>,
    next_id: u32,
}

impl InMemoryRouletteSlotRepository {
    pub closed spec fn entries(&self) -> Seq<RouletteSlot> {
        self.slots@
    }

    pub closed spec fn next_id(&self) -> u32 {
        self.next_id
    }

    pub open spec fn wf(&self) -> bool {
        slot_ids_ordered(self.entries(), self.next_id())
    }

    pub fn new() -> (r: Self)
        ensures
            r.entries() == Seq::<RouletteSlot>::empty(),
            r.next_id() == 1,
            r.wf(),
    {
        InMemoryRouletteSlotRepository { slots: Vec::new(), next_id: 1 }
    }

    /// The default wheel: a chat, a subscription, a super chat and the
    /// jackpot, from the most to the least likely.
    pub fn new_seeded() -> (r: Self)
        ensures
            r.entries().len() == 4,
            slot_is(r.entries()[0], 1, "Поболтать"@, 1, 50, "chat"@),
            slot_is(r.entries()[1], 2, "Подписка"@, 2, 20, "subscribe"@),
            slot_is(r.entries()[2], 3, "Суперчат"@, 3, 5, "superchat"@),
            slot_is(r.entries()[3], 4, "Джекпот"@, 4, 1, "jackpot"@),
            r.next_id() == 5,
            r.wf(),
    {
        let mut slots: Vec<RouletteSlot> = Vec::new();
        slots.push(RouletteSlot::new(RouletteSlotId::new(1), "Поболтать", RarityId::new(1), 50, "chat"));
        slots.push(RouletteSlot::new(RouletteSlotId::new(2), "Подписка", RarityId::new(2), 20, "subscribe"));
        slots.push(RouletteSlot::new(RouletteSlotId::new(3), "Суперчат", RarityId::new(3), 5, "superchat"));
        slots.push(RouletteSlot::new(RouletteSlotId::new(4), "Джекпот", RarityId::new(4), 1, "jackpot"));
        InMemoryRouletteSlotRepository { slots, next_id: 5 }
    }

    /// A repository holding the given slots, renumbered from one in
    /// their order; new ones continue after them.
    pub fn seed(slots: Vec<RouletteSlot>) -> (r: Self)
        requires
            slots@.len() < u32::MAX,
        ensures
            r.entries().len() == slots@.len(),
            forall|i: int|
                0 <= i < slots@.len() ==> slot_is(
                    #[trigger] r.entries()[i],
                    (i + 1) as u32,
                    slots@[i].name@,
                    slots@[i].rarity_id.0,
                    slots@[i].weight,
                    slots@[i].action@,
                ),
            r.next_id() == slots@.len() + 1,
            r.wf(),
    {
        let n = slots.len();
        let mut assigned: Vec<RouletteSlot> = Vec::new();
        let mut i: usize = 0;
        while i < n
            invariant
                i <= n,
                n == slots@.len(),
                n < u32::MAX,
                assigned@.len() == i,
                forall|k: int|
                    0 <= k < i ==> slot_is(
                        #[trigger] assigned@[k],
                        (k + 1) as u32,
                        slots@[k].name@,
                        slots@[k].rarity_id.0,
                        slots@[k].weight,
                        slots@[k].action@,
                    ),
            decreases n - i,
        {
            let r = &slots[i];
            let id = (i + 1) as u32;
            assigned.push(
                RouletteSlot::new(
                    RouletteSlotId::new(id),
                    r.name.as_str(),
                    r.rarity_id,
                    r.weight,
                    r.action.as_str(),
                ),
            );
            i += 1;
        }
        let next_id = (n + 1) as u32;
        InMemoryRouletteSlotRepository { slots: assigned, next_id }
    }

    /// Every slot, in the order they were added.
    pub fn load_all(&self) -> (r: Result<Vec<RouletteSlot>, RepositoryError>)
        ensures
            r matches Ok(v) && v@ == self.entries(),
    {
        let mut out: Vec<RouletteSlot> = Vec::new();
        let mut i: usize = 0;
        while i < self.slots.len()
            invariant
                i <= self.slots@.len(),
                out@ == self.slots@.take(i as int),
            decreases self.slots@.len() - i,
        {
            out.push(self.slots[i].clone());
            proof {
                assert(self.slots@.take(i + 1) == self.slots@.take(i as int).push(
                    self.slots@[i as int],
                ));
            }
            i += 1;
        }
        proof {
            assert(self.slots@.take(i as int) == self.slots@);
        }
        Ok(out)
    }

    /// Adds a slot under the next id, whatever id it came with.
    pub fn save(&mut self, slot: RouletteSlot) -> (r: Result<RouletteSlot, RepositoryError>)
        ensures
            r matches Ok(saved) && {
                &&& saved.id.0 == old(self).next_id()
                &&& saved.name == slot.name
                &&& saved.rarity_id == slot.rarity_id
                &&& saved.weight == slot.weight
                &&& saved.action == slot.action
                &&& final(self).entries() == old(self).entries().push(saved)
            },
            final(self).next_id() == old(self).next_id().wrapping_add(1),
            old(self).wf() && old(self).next_id() < u32::MAX ==> final(self).wf(),
    {
        let id = self.next_id;
        self.next_id = self.next_id.wrapping_add(1);
        let mut slot = slot;
        slot.id = RouletteSlotId::new(id);
        self.slots.push(slot.clone());
        Ok(slot)
    }

    /// Replaces the first slot with the same id; `None` when there is none.
    pub fn update(&mut self, slot: RouletteSlot) -> (r: Result<Option<RouletteSlot>, RepositoryError>)
        ensures
            final(self).next_id() == old(self).next_id(),
            r matches Ok(v) && match v {
                Some(x) => x == slot && exists|i: int|
                    is_first_slot(old(self).entries(), slot.id, i) && final(self).entries()
                        == old(self).entries().update(i, slot),
                None => !has_slot(old(self).entries(), slot.id) && final(self).entries() == old(self).entries(),
            },
            old(self).wf() ==> final(self).wf(),
    {
        let ghost s = self.slots@;
        let mut i: usize = 0;
        while i < self.slots.len()
            invariant
                i <= self.slots@.len(),
                s == self.slots@,
                self.next_id == old(self).next_id,
                s == old(self).slots@,
                forall|j: int| 0 <= j < i ==> s[j].id != slot.id,
            decreases self.slots@.len() - i,
        {
            if self.slots[i].id.0 == slot.id.0 {
                proof {
                    assert(is_first_slot(s, slot.id, i as int));
                }
                self.slots.set(i, slot.clone());
                proof {
                    assert(self.slots@ == s.update(i as int, slot));
                    assert(is_first_slot(old(self).entries(), slot.id, i as int));
                    if slot_ids_ordered(s, self.next_id) {
                        assert forall|a: int, b: int|
                            0 <= a < b < self.slots@.len() implies self.slots@[a].id.0
                            < self.slots@[b].id.0 by {
                            assert(s[a].id.0 < s[b].id.0);
                        }
                    }
                }
                return Ok(Some(slot));
            }
            i += 1;
        }
        Ok(None)
    }

    /// Removes every slot with the id; reports whether there was one.
    pub fn delete(&mut self, id: RouletteSlotId) -> (r: Result<bool, RepositoryError>)
        ensures
            final(self).next_id() == old(self).next_id(),
            final(self).entries() == old(self).entries().filter(slot_other_than(id)),
            r matches Ok(b) && b == has_slot(old(self).entries(), id),
            old(self).wf() ==> final(self).wf(),
    {
        let ghost s = self.slots@;
        let mut kept: Vec<RouletteSlot> = Vec::new();
        let mut found = false;
        let mut i: usize = 0;
        let n = self.slots.len();
        while i < n
            invariant
                i <= n,
                n == s.len(),
                s == self.slots@,
                kept@ == s.take(i as int).filter(slot_other_than(id)),
                found == has_slot(s.take(i as int), id),
                self.next_id == old(self).next_id,
                s == old(self).slots@,
            decreases n - i,
        {
            proof {
                crate::seqs::lemma_take_one_more_filter(s, i as int, slot_other_than(id));
            }
            if self.slots[i].id.0 == id.0 {
                found = true;
            } else {
                kept.push(self.slots[i].clone());
            }
            proof {
                assert(s.take(i + 1)[i as int] == s[i as int]);
                assert forall|j: int| 0 <= j < i implies #[trigger] s.take(i + 1)[j] == s.take(
                    i as int,
                )[j] by {}
                if has_slot(s.take(i + 1), id) && !has_slot(s.take(i as int), id) {
                    let j = choose|j: int| 0 <= j < i + 1 && #[trigger] s.take(i + 1)[j].id == id;
                    assert(j == i);
                }
            }
            i += 1;
        }
        proof {
            assert(s.take(n as int) == s);
            lemma_filter_keeps_slot_order(s, slot_other_than(id), self.next_id);
        }
        self.slots = kept;
        Ok(found)
    }
}

/// Filtering keeps the ids ordered and below the next id.
pub proof fn lemma_filter_keeps_slot_order(s: Seq<RouletteSlot>, pred: spec_fn(RouletteSlot) -> bool, next: u32)
    ensures
        slot_ids_ordered(s, next) ==> slot_ids_ordered(s.filter(pred), next),
    decreases s.len(),
{
    if s.len() > 0 && slot_ids_ordered(s, next) {
        let init = s.drop_last();
        lemma_filter_keeps_slot_order(init, pred, next);
        assert(s == init.push(s.last()));
        init.lemma_filter_push(s.last(), pred);
        let f = init.filter(pred);
        assert forall|i: int| 0 <= i < f.len() implies #[trigger] f[i].id.0 < s.last().id.0 by {
            assert(f.contains(f[i]));
            init.lemma_filter_contains_rev(pred, f[i]);
            let j = choose|j: int| 0 <= j < init.len() && init[j] == f[i];
            assert(s[j] == init[j]);
        }
    }
}

} // verus!
