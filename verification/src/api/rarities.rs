//! Bodies and parameters of the public rarity endpoints.

use vstd::prelude::*;

use crate::catalog::Rarity;
use crate::ids::RarityId;

verus! {

/// A rarity, as listed.
#[derive(Debug)]
pub struct RarityResponse {
    pub id: RarityId,
    pub name: String,
    pub display_name: String,
    pub image: String,
    pub color: String,
}

impl RarityResponse {
    pub fn from(r: Rarity) -> (out: Self)
        ensures
            out == (RarityResponse {
                id: r.id,
                name: r.name,
                display_name: r.display_name,
                image: r.image,
                color: r.color,
            }),
    {
        RarityResponse {
            id: r.id,
            name: r.name,
            display_name: r.display_name,
            image: r.image,
            color: r.color,
        }
    }
}

/// A request to create a rarity.
#[derive(Debug)]
pub struct CreateRarityRequest {
    pub name: String,
    pub display_name: String,
    pub image: String,
    pub color: String,
}

/// A request to replace a rarity.
#[derive(Debug)]
pub struct UpdateRarityRequest {
    pub name: String,
    pub display_name: String,
    pub image: String,
    pub color: String,
}

/// A rarity named in a path.
#[derive(Debug)]
pub struct RarityIdParam {
    pub id: RarityId,
}

} // verus!
