//! Identifier newtypes of the domain.

use vstd::prelude::*;

verus! {

/// Identifier of an action.
#[derive(Clone, Copy, Debug, PartialEq, Eq, Hash, Structural)]
pub struct ActionId(pub u32);

impl ActionId {
    pub fn new(id: u32) -> (r: Self)
        ensures
            r.0 == id,
    {
        ActionId(id)
    }

    pub fn get(&self) -> (r: u32)
        ensures
            r == self.0,
    {
        self.0
    }
}

/// Identifier of a rule.
#[derive(Clone, Copy, Debug, PartialEq, Eq, Hash, Structural)]
pub struct RuleId(pub u32);

impl RuleId {
    pub fn new(id: u32) -> (r: Self)
        ensures
            r.0 == id,
    {
        RuleId(id)
    }

    pub fn get(&self) -> (r: u32)
        ensures
            r == self.0,
    {
        self.0
    }
}

/// Identifier of a queue entry.
#[derive(Clone, Copy, Debug, PartialEq, Eq, Hash, Structural)]
pub struct QueueEntryId(pub u32);

impl QueueEntryId {
    pub fn new(id: u32) -> (r: Self)
        ensures
            r.0 == id,
    {
        QueueEntryId(id)
    }

    pub fn value(&self) -> (r: u32)
        ensures
            r == self.0,
    {
        self.0
    }
}

/// Identifier of a user.
#[derive(Clone, Copy, Debug, PartialEq, Eq, Hash, Structural)]
pub struct UserId(pub u32);

impl UserId {
    pub fn new(id: u32) -> (r: Self)
        ensures
            r.0 == id,
    {
        UserId(id)
    }

    pub fn value(&self) -> (r: u32)
        ensures
            r == self.0,
    {
        self.0
    }
}

/// Identifier of a user's link to a platform.
#[derive(Clone, Copy, Debug, PartialEq, Eq, Hash, Structural)]
pub struct UserPlatformId(pub u32);

impl UserPlatformId {
    pub fn new(id: u32) -> (r: Self)
        ensures
            r.0 == id,
    {
        UserPlatformId(id)
    }

    pub fn value(&self) -> (r: u32)
        ensures
            r == self.0,
    {
        self.0
    }
}

/// Identifier of a streaming platform.
#[derive(Clone, Copy, Debug, PartialEq, Eq, Hash, Structural)]
pub struct PlatformId(pub u32);

impl PlatformId {
    pub fn new(id: u32) -> (r: Self)
        ensures
            r.0 == id,
    {
        PlatformId(id)
    }

    pub fn value(&self) -> (r: u32)
        ensures
            r == self.0,
    {
        self.0
    }
}

/// Identifier of a rarity.
#[derive(Clone, Copy, Debug, PartialEq, Eq, Hash, Structural)]
pub struct RarityId(pub u32);

impl RarityId {
    pub fn new(id: u32) -> (r: Self)
        ensures
            r.0 == id,
    {
        RarityId(id)
    }

    pub fn value(&self) -> (r: u32)
        ensures
            r == self.0,
    {
        self.0
    }
}

/// Identifier of a roulette slot.
#[derive(Clone, Copy, Debug, PartialEq, Eq, Hash, Structural)]
pub struct RouletteSlotId(pub u32);

impl RouletteSlotId {
    pub fn new(id: u32) -> (r: Self)
        ensures
            r.0 == id,
    {
        RouletteSlotId(id)
    }

    pub fn value(&self) -> (r: u32)
        ensures
            r == self.0,
    {
        self.0
    }
}

impl PlatformId {
    /// Twitch.
    pub fn twitch() -> (r: Self)
        ensures
            r.0 == 1,
    {
        PlatformId(1)
    }

    /// YouTube.
    pub fn youtube() -> (r: Self)
        ensures
            r.0 == 2,
    {
        PlatformId(2)
    }

    /// VK Video Live.
    pub fn vk_video_live() -> (r: Self)
        ensures
            r.0 == 3,
    {
        PlatformId(3)
    }
}

} // verus!
