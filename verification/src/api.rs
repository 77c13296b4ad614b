//! The shapes the HTTP API exchanges, and how domain values become them.

pub mod admin;
pub mod queue;
pub mod rarities;
pub mod roulette_slots;
pub mod session;
pub mod stream;
pub mod users;
