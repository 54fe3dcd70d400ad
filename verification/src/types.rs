//! Entity types of the consumption core: item instances, item definitions,
//! actor vitals, effect triples, and the error taxonomy.

use vstd::prelude::*;

verus! {

/// Upper bound for each vital statistic; the lower bound is 0.
pub const MAX_STAT: i32 = 100;

/// Closed set of item categories; only `Consumable` may be consumed.
#[derive(Clone, Copy, Debug, PartialEq, Eq, Structural)]
pub enum ItemCategory {
    Consumable,
    Weapon,
    Tool,
    Material,
    Placeable,
}

/// A concrete stack of an item type owned by one actor.
#[derive(Clone, Copy, Debug, PartialEq, Eq, Structural)]
pub struct InventoryItemInstance {
    pub instance_id: u64,
    pub owner_identity: u64,
    pub item_def_id: u64,
    pub quantity: u32,
}

/// Shared, read-only metadata describing an item type.
#[derive(Clone, Debug)]
pub struct ItemDefinition {
    pub id: u64,
    pub name: String,
    pub category: ItemCategory,
}

/// An actor's bounded life-support statistics.
#[derive(Clone, Copy, Debug, PartialEq, Eq, Structural)]
pub struct ActorVitals {
    pub identity: u64,
    pub health: i32,
    pub hunger: i32,
    pub thirst: i32,
}

impl ActorVitals {
    /// Every vital statistic lies in `[0, MAX_STAT]`.
    pub open spec fn in_bounds(self) -> bool {
        &&& 0 <= self.health <= MAX_STAT
        &&& 0 <= self.hunger <= MAX_STAT
        &&& 0 <= self.thirst <= MAX_STAT
    }
}

/// A fixed triple of stat deltas associated with consuming an item type.
#[derive(Clone, Copy, Debug, PartialEq, Eq, Structural)]
pub struct EffectDefinition {
    pub health_delta: i32,
    pub hunger_delta: i32,
    pub thirst_delta: i32,
}

/// Why a consumption request was rejected; detected before any mutation.
#[derive(Clone, Copy, Debug, PartialEq, Eq, Structural)]
pub enum ConsumeError {
    /// The instance id does not resolve.
    ItemNotFound,
    /// The instance belongs to a different actor.
    NotOwner,
    /// Referential-integrity fault between instance and definition.
    DefinitionNotFound,
    /// The definition's category disallows consumption.
    NotConsumable,
    /// The requester has no vitals record.
    ActorNotFound,
}

impl ConsumeError {
    /// The descriptive message for each error variant.
    pub open spec fn spec_message(self) -> Seq<char> {
        match self {
            ConsumeError::ItemNotFound => "Item instance not found."@,
            ConsumeError::NotOwner => "Cannot consume an item that does not belong to you."@,
            ConsumeError::DefinitionNotFound => "Definition not found for item."@,
            ConsumeError::NotConsumable => "Item is not consumable."@,
            ConsumeError::ActorNotFound => "Player not found to apply consumable effects."@,
        }
    }

    /// A descriptive message, suitable for returning across the dispatch boundary.
    pub fn message(&self) -> (r: String)
        ensures
            r@ == self.spec_message(),
    {
        match self {
            ConsumeError::ItemNotFound => "Item instance not found.".to_owned(),
            ConsumeError::NotOwner => "Cannot consume an item that does not belong to you.".to_owned(),
            ConsumeError::DefinitionNotFound => "Definition not found for item.".to_owned(),
            ConsumeError::NotConsumable => "Item is not consumable.".to_owned(),
            ConsumeError::ActorNotFound => "Player not found to apply consumable effects.".to_owned(),
        }
    }
}

} // verus!
