//! Item-consumption transaction: validates ownership and category of an
//! inventory item instance, applies clamped stat effects to the owning
//! actor's vitals, and decrements or deletes the stack, atomically.

pub mod types;
pub mod effects;
pub mod transaction;
