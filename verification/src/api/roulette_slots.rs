//! Bodies and parameters of the public roulette-slot endpoints.

use vstd::prelude::*;

use crate::catalog::RouletteSlot;
use crate::ids::{RarityId, RouletteSlotId};

verus! {

/// A roulette slot, as listed.
#[derive(Debug)]
pub struct RouletteSlotResponse {
    pub id: RouletteSlotId,
    pub name: String,
    pub rarity_id: RarityId,
    pub weight: u64,
    pub action: String,
}

impl RouletteSlotResponse {
    pub fn from(slot: RouletteSlot) -> (r: Self)
        ensures
            r == (RouletteSlotResponse {
                id: slot.id,
                name: slot.name,
                rarity_id: slot.rarity_id,
                weight: slot.weight,
                action: slot.action,
            }),
    {
        RouletteSlotResponse {
            id: slot.id,
            name: slot.name,
            rarity_id: slot.rarity_id,
            weight: slot.weight,
            action: slot.action,
        }
    }
}

/// A request to create a roulette slot.
#[derive(Debug)]
pub struct CreateRouletteSlotRequest {
    pub name: String,
    pub rarity_id: RarityId,
    pub weight: u64,
    pub action: String,
}

/// A request to replace a roulette slot.
#[derive(Debug)]
pub struct UpdateRouletteSlotRequest {
    pub name: String,
    pub rarity_id: RarityId,
    pub weight: u64,
    pub action: String,
}

/// A roulette slot named in a path.
#[derive(Debug)]
pub struct SlotIdParam {
    pub id: RouletteSlotId,
}

} // verus!
