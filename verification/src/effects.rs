//! EffectCatalog and StatClamp: pure lookup from an item name to its stat
//! deltas, and clamped application of deltas to an actor's vitals.

use vstd::prelude::*;
use crate::types::{ActorVitals, EffectDefinition, MAX_STAT};

verus! {

/// Bound a value into `[0, MAX_STAT]`.
pub open spec fn clamp_spec(v: int) -> int {
    if v < 0 {
        0
    } else if v > MAX_STAT as int {
        MAX_STAT as int
    } else {
        v
    }
}

/// Clamp a candidate stat value into the valid range.
pub fn clamp_stat(v: i64) -> (r: i32)
    ensures
        r as int == clamp_spec(v as int),
{
    if v < 0 {
        0
    } else if v > MAX_STAT as i64 {
        MAX_STAT
    } else {
        v as i32
    }
}

/// The stat deltas registered for an item name; `None` for a name without
/// a registered effect (absence is not an error).
pub open spec fn effect_for(name: Seq<char>) -> Option<EffectDefinition> {
    if name == "Mushroom"@ {
        Some(EffectDefinition { health_delta: 5, hunger_delta: 10, thirst_delta: 5 })
    } else if name == "Corn"@ {
        Some(EffectDefinition { health_delta: 15, hunger_delta: 25, thirst_delta: 10 })
    } else {
        None
    }
}

/// Pure, deterministic lookup of an item name's stat deltas by exact
/// string equality against the fixed set of known names.
pub fn lookup(name: &String) -> (r: Option<EffectDefinition>)
    ensures
        r == effect_for(name@),
{
    let mushroom: String = "Mushroom".to_owned();
    let corn: String = "Corn".to_owned();
    if *name == mushroom {
        Some(EffectDefinition { health_delta: 5, hunger_delta: 10, thirst_delta: 5 })
    } else if *name == corn {
        Some(EffectDefinition { health_delta: 15, hunger_delta: 25, thirst_delta: 10 })
    } else {
        None
    }
}

/// The vitals after consuming an item with effect `e`: each stat moves by
/// its delta and is then clamped, independently; the identity is kept.
pub open spec fn apply_effect_spec(v: ActorVitals, e: EffectDefinition) -> ActorVitals {
    ActorVitals {
        identity: v.identity,
        health: clamp_spec(v.health + e.health_delta) as i32,
        hunger: clamp_spec(v.hunger + e.hunger_delta) as i32,
        thirst: clamp_spec(v.thirst + e.thirst_delta) as i32,
    }
}

/// Apply an effect's deltas to an actor's vitals, clamping each stat.
pub fn apply_effect(v: &ActorVitals, e: &EffectDefinition) -> (r: ActorVitals)
    ensures
        r == apply_effect_spec(*v, *e),
        r.in_bounds(),
{
    ActorVitals {
        identity: v.identity,
        health: clamp_stat(v.health as i64 + e.health_delta as i64),
        hunger: clamp_stat(v.hunger as i64 + e.hunger_delta as i64),
        thirst: clamp_stat(v.thirst as i64 + e.thirst_delta as i64),
    }
}

/// Clamping invariant: after applying any effect to any vitals, every
/// resulting stat lies in `[0, MAX_STAT]`, even when the pre-delta value
/// plus the delta would leave that range.
pub proof fn lemma_effect_result_in_bounds(v: ActorVitals, e: EffectDefinition)
    ensures
        apply_effect_spec(v, e).in_bounds(),
{
}

} // verus!
