//! ConsumptionTransaction: an in-memory keyed store over the three entity
//! tables, and the atomic consume operation that validates, applies effects,
//! and decrements or deletes the stack.

use vstd::prelude::*;
use crate::types::{ActorVitals, ConsumeError, InventoryItemInstance, ItemDefinition, ItemCategory};
use crate::effects::{apply_effect, apply_effect_spec, effect_for, lookup};

verus! {

/// The first instance in `s` whose `instance_id` is `id`, if any.
pub open spec fn find_instance_spec(s: Seq<InventoryItemInstance>, id: u64) -> Option<
    InventoryItemInstance,
>
    decreases s.len(),
{
    if s.len() == 0 {
        None
    } else if s[0].instance_id == id {
        Some(s[0])
    } else {
        find_instance_spec(s.drop_first(), id)
    }
}

/// The first definition in `s` whose `id` is `id`, if any.
pub open spec fn find_definition_spec(s: Seq<ItemDefinition>, id: u64) -> Option<ItemDefinition>
    decreases s.len(),
{
    if s.len() == 0 {
        None
    } else if s[0].id == id {
        Some(s[0])
    } else {
        find_definition_spec(s.drop_first(), id)
    }
}

/// The first vitals record in `s` whose `identity` is `who`, if any.
pub open spec fn find_actor_spec(s: Seq<ActorVitals>, who: u64) -> Option<ActorVitals>
    decreases s.len(),
{
    if s.len() == 0 {
        None
    } else if s[0].identity == who {
        Some(s[0])
    } else {
        find_actor_spec(s.drop_first(), who)
    }
}

/// The three logical tables reached by the transaction: inventory instances
/// keyed by instance id, item definitions keyed by definition id, and actor
/// vitals keyed by actor identity.
pub struct Storage {
    pub instances: Vec<InventoryItemInstance>,
    pub definitions: Vec<ItemDefinition>,
    pub actors: Vec<ActorVitals>,
}

impl Storage {
    /// Well-formedness: keys are unique in each table, no instance ever has
    /// quantity 0 (depleted stacks are deleted), and every vitals record is
    /// within bounds.
    pub open spec fn wf(self) -> bool {
        &&& (forall|i: int, j: int|
            0 <= i < j < self.instances@.len() ==> self.instances@[i].instance_id
                != self.instances@[j].instance_id)
        &&& (forall|i: int, j: int|
            0 <= i < j < self.definitions@.len() ==> self.definitions@[i].id
                != self.definitions@[j].id)
        &&& (forall|i: int, j: int|
            0 <= i < j < self.actors@.len() ==> self.actors@[i].identity
                != self.actors@[j].identity)
        &&& (forall|i: int| 0 <= i < self.instances@.len() ==> self.instances@[i].quantity >= 1)
        &&& (forall|i: int| 0 <= i < self.actors@.len() ==> self.actors@[i].in_bounds())
    }

    /// An empty store, trivially well-formed.
    pub fn new() -> (r: Storage)
        ensures
            r.wf(),
            r.instances@ =~= Seq::<InventoryItemInstance>::empty(),
            r.definitions@ =~= Seq::<ItemDefinition>::empty(),
            r.actors@ =~= Seq::<ActorVitals>::empty(),
    {
        Storage { instances: Vec::new(), definitions: Vec::new(), actors: Vec::new() }
    }

    /// Index of the first instance with the given id, or `None`.
    fn find_instance_index(&self, id: u64) -> (r: Option<usize>)
        ensures
            match r {
                Some(i) => {
                    &&& i < self.instances@.len()
                    &&& self.instances@[i as int].instance_id == id
                    &&& forall|k: int| 0 <= k < i ==> self.instances@[k].instance_id != id
                },
                None => forall|k: int|
                    0 <= k < self.instances@.len() ==> self.instances@[k].instance_id != id,
            },
    {
        let mut i: usize = 0;
        while i < self.instances.len()
            invariant
                i <= self.instances@.len(),
                forall|k: int| 0 <= k < i ==> self.instances@[k].instance_id != id,
            decreases self.instances@.len() - i,
        {
            if self.instances[i].instance_id == id {
                return Some(i);
            }
            i = i + 1;
        }
        None
    }

    /// Index of the first definition with the given id, or `None`.
    fn find_definition_index(&self, id: u64) -> (r: Option<usize>)
        ensures
            match r {
                Some(i) => {
                    &&& i < self.definitions@.len()
                    &&& self.definitions@[i as int].id == id
                    &&& forall|k: int| 0 <= k < i ==> self.definitions@[k].id != id
                },
                None => forall|k: int|
                    0 <= k < self.definitions@.len() ==> self.definitions@[k].id != id,
            },
    {
        let mut i: usize = 0;
        while i < self.definitions.len()
            invariant
                i <= self.definitions@.len(),
                forall|k: int| 0 <= k < i ==> self.definitions@[k].id != id,
            decreases self.definitions@.len() - i,
        {
            if self.definitions[i].id == id {
                return Some(i);
            }
            i = i + 1;
        }
        None
    }

    /// Index of the first vitals record with the given identity, or `None`.
    fn find_actor_index(&self, who: u64) -> (r: Option<usize>)
        ensures
            match r {
                Some(i) => {
                    &&& i < self.actors@.len()
                    &&& self.actors@[i as int].identity == who
                    &&& forall|k: int| 0 <= k < i ==> self.actors@[k].identity != who
                },
                None => forall|k: int|
                    0 <= k < self.actors@.len() ==> self.actors@[k].identity != who,
            },
    {
        let mut i: usize = 0;
        while i < self.actors.len()
            invariant
                i <= self.actors@.len(),
                forall|k: int| 0 <= k < i ==> self.actors@[k].identity != who,
            decreases self.actors@.len() - i,
        {
            if self.actors[i].identity == who {
                return Some(i);
            }
            i = i + 1;
        }
        None
    }
}

/// A first match at `i`, with no match before it, is what the spec-level
/// find returns.
proof fn lemma_find_instance_first(s: Seq<InventoryItemInstance>, id: u64, i: int)
    requires
        0 <= i < s.len(),
        s[i].instance_id == id,
        forall|k: int| 0 <= k < i ==> s[k].instance_id != id,
    ensures
        find_instance_spec(s, id) == Some(s[i]),
    decreases i,
{
    if i > 0 {
        lemma_find_instance_first(s.drop_first(), id, i - 1);
    }
}

/// No element carries the id, so the spec-level find returns `None`.
proof fn lemma_find_instance_none(s: Seq<InventoryItemInstance>, id: u64)
    requires
        forall|k: int| 0 <= k < s.len() ==> s[k].instance_id != id,
    ensures
        find_instance_spec(s, id) is None,
    decreases s.len(),
{
    if s.len() > 0 {
        lemma_find_instance_none(s.drop_first(), id);
    }
}

proof fn lemma_find_definition_first(s: Seq<ItemDefinition>, id: u64, i: int)
    requires
        0 <= i < s.len(),
        s[i].id == id,
        forall|k: int| 0 <= k < i ==> s[k].id != id,
    ensures
        find_definition_spec(s, id) == Some(s[i]),
    decreases i,
{
    if i > 0 {
        lemma_find_definition_first(s.drop_first(), id, i - 1);
    }
}

proof fn lemma_find_definition_none(s: Seq<ItemDefinition>, id: u64)
    requires
        forall|k: int| 0 <= k < s.len() ==> s[k].id != id,
    ensures
        find_definition_spec(s, id) is None,
    decreases s.len(),
{
    if s.len() > 0 {
        lemma_find_definition_none(s.drop_first(), id);
    }
}

proof fn lemma_find_actor_first(s: Seq<ActorVitals>, who: u64, i: int)
    requires
        0 <= i < s.len(),
        s[i].identity == who,
        forall|k: int| 0 <= k < i ==> s[k].identity != who,
    ensures
        find_actor_spec(s, who) == Some(s[i]),
    decreases i,
{
    if i > 0 {
        lemma_find_actor_first(s.drop_first(), who, i - 1);
    }
}

/// Replacing the element at `i` with one carrying the same instance id
/// does not change what a find for any other id returns.
proof fn lemma_find_instance_update_other(
    s: Seq<InventoryItemInstance>,
    i: int,
    x: InventoryItemInstance,
    other: u64,
)
    requires
        0 <= i < s.len(),
        x.instance_id == s[i].instance_id,
        other != s[i].instance_id,
    ensures
        find_instance_spec(s.update(i, x), other) == find_instance_spec(s, other),
    decreases s.len(),
{
    let t = s.update(i, x);
    if i == 0 {
        assert(t.drop_first() =~= s.drop_first());
    } else {
        assert(t[0] == s[0]);
        if s[0].instance_id != other {
            assert(t.drop_first() =~= s.drop_first().update(i - 1, x));
            lemma_find_instance_update_other(s.drop_first(), i - 1, x, other);
        }
    }
}

/// Removing the element at `i` does not change what a find for an id other
/// than the removed one returns.
proof fn lemma_find_instance_remove_other(s: Seq<InventoryItemInstance>, i: int, other: u64)
    requires
        0 <= i < s.len(),
        other != s[i].instance_id,
    ensures
        find_instance_spec(s.remove(i), other) == find_instance_spec(s, other),
    decreases s.len(),
{
    let t = s.remove(i);
    if i == 0 {
        assert(t =~= s.drop_first());
    } else {
        assert(t[0] == s[0]);
        if s[0].instance_id != other {
            assert(t.drop_first() =~= s.drop_first().remove(i - 1));
            lemma_find_instance_remove_other(s.drop_first(), i - 1, other);
        }
    }
}

/// Replacing the vitals at `i` with a record for the same identity does not
/// change what a find for any other identity returns.
proof fn lemma_find_actor_update_other(s: Seq<ActorVitals>, i: int, x: ActorVitals, other: u64)
    requires
        0 <= i < s.len(),
        x.identity == s[i].identity,
        other != s[i].identity,
    ensures
        find_actor_spec(s.update(i, x), other) == find_actor_spec(s, other),
    decreases s.len(),
{
    let t = s.update(i, x);
    if i == 0 {
        assert(t.drop_first() =~= s.drop_first());
    } else {
        assert(t[0] == s[0]);
        if s[0].identity != other {
            assert(t.drop_first() =~= s.drop_first().update(i - 1, x));
            lemma_find_actor_update_other(s.drop_first(), i - 1, x, other);
        }
    }
}

proof fn lemma_find_actor_none(s: Seq<ActorVitals>, who: u64)
    requires
        forall|k: int| 0 <= k < s.len() ==> s[k].identity != who,
    ensures
        find_actor_spec(s, who) is None,
    decreases s.len(),
{
    if s.len() > 0 {
        lemma_find_actor_none(s.drop_first(), who);
    }
}

/// The validation outcome for a consumption request: the first failing
/// check, in order (instance found, owned by the sender, definition found,
/// category consumable, vitals record found), or `None` when every
/// precondition passes.
pub open spec fn consume_check(s: Storage, sender: u64, item_instance_id: u64) -> Option<
    ConsumeError,
> {
    match find_instance_spec(s.instances@, item_instance_id) {
        None => Some(ConsumeError::ItemNotFound),
        Some(inst) => {
            if inst.owner_identity != sender {
                Some(ConsumeError::NotOwner)
            } else {
                match find_definition_spec(s.definitions@, inst.item_def_id) {
                    None => Some(ConsumeError::DefinitionNotFound),
                    Some(def) => {
                        if !(def.category is Consumable) {
                            Some(ConsumeError::NotConsumable)
                        } else {
                            match find_actor_spec(s.actors@, sender) {
                                None => Some(ConsumeError::ActorNotFound),
                                Some(_) => None,
                            }
                        }
                    },
                }
            }
        },
    }
}

/// How a successful consumption transforms the store: the definitions are
/// untouched; exactly one unit leaves the consumed stack, deleting it on
/// depletion; every other instance is untouched; the sender's vitals move
/// by the item's effect, clamped, when the item name has a registered
/// effect, and are untouched otherwise; every other actor is untouched.
pub open spec fn consume_ok_post(
    pre: Storage,
    post: Storage,
    sender: u64,
    item_instance_id: u64,
) -> bool {
    let inst = find_instance_spec(pre.instances@, item_instance_id).unwrap();
    let def = find_definition_spec(pre.definitions@, inst.item_def_id).unwrap();
    let actor = find_actor_spec(pre.actors@, sender).unwrap();
    &&& post.definitions@ == pre.definitions@
    &&& (inst.quantity == 1 ==> find_instance_spec(post.instances@, item_instance_id) is None)
    &&& (inst.quantity > 1 ==> find_instance_spec(post.instances@, item_instance_id) == Some(
        InventoryItemInstance {
            instance_id: inst.instance_id,
            owner_identity: inst.owner_identity,
            item_def_id: inst.item_def_id,
            quantity: (inst.quantity - 1) as u32,
        },
    ))
    &&& (forall|other: u64|
        other != item_instance_id ==> find_instance_spec(post.instances@, other)
            == find_instance_spec(pre.instances@, other))
    &&& (match effect_for(def.name@) {
        Some(e) => find_actor_spec(post.actors@, sender) == Some(apply_effect_spec(actor, e)),
        None => post.actors@ == pre.actors@,
    })
    &&& (forall|other: u64|
        other != sender ==> find_actor_spec(post.actors@, other) == find_actor_spec(
            pre.actors@,
            other,
        ))
}

impl Storage {
    /// Consume one unit of the given item instance on behalf of `sender`:
    /// validate ownership and category, apply the item's clamped stat
    /// effects to the sender's vitals, and decrement or delete the stack.
    /// On any error, the store is left byte-for-byte unchanged.
    pub fn consume_item(&mut self, sender: u64, item_instance_id: u64) -> (r: Result<
        (),
        ConsumeError,
    >)
        requires
            old(self).wf(),
        ensures
            final(self).wf(),
            (match consume_check(*old(self), sender, item_instance_id) {
                Some(e) => r == Err::<(), ConsumeError>(e) && *final(self) == *old(self),
                None => r == Ok::<(), ConsumeError>(()) && consume_ok_post(
                    *old(self),
                    *final(self),
                    sender,
                    item_instance_id,
                ),
            }),
    {
        let idx = match self.find_instance_index(item_instance_id) {
            Some(i) => i,
            None => {
                proof {
                    lemma_find_instance_none(self.instances@, item_instance_id);
                }
                return Err(ConsumeError::ItemNotFound);
            },
        };
        proof {
            lemma_find_instance_first(self.instances@, item_instance_id, idx as int);
        }
        let inst = self.instances[idx];
        if inst.owner_identity != sender {
            return Err(ConsumeError::NotOwner);
        }
        let def_idx = match self.find_definition_index(inst.item_def_id) {
            Some(i) => i,
            None => {
                proof {
                    lemma_find_definition_none(self.definitions@, inst.item_def_id);
                }
                return Err(ConsumeError::DefinitionNotFound);
            },
        };
        proof {
            lemma_find_definition_first(self.definitions@, inst.item_def_id, def_idx as int);
        }
        if self.definitions[def_idx].category != ItemCategory::Consumable {
            return Err(ConsumeError::NotConsumable);
        }
        let actor_idx = match self.find_actor_index(sender) {
            Some(i) => i,
            None => {
                proof {
                    lemma_find_actor_none(self.actors@, sender);
                }
                return Err(ConsumeError::ActorNotFound);
            },
        };
        proof {
            lemma_find_actor_first(self.actors@, sender, actor_idx as int);
        }
        let actor = self.actors[actor_idx];

        // All validations passed; resolve the effect, then write.
        let effect = lookup(&self.definitions[def_idx].name);

        let ghost s0 = old(self).instances@;
        if inst.quantity == 1 {
            self.instances.remove(idx);
            proof {
                let t = self.instances@;
                assert forall|k: int| 0 <= k < t.len() implies t[k].instance_id
                    != item_instance_id by {
                    if k < idx {
                        assert(t[k] == s0[k]);
                    } else {
                        assert(t[k] == s0[k + 1]);
                    }
                }
                lemma_find_instance_none(t, item_instance_id);
                assert forall|other: u64| other != item_instance_id implies find_instance_spec(
                    t,
                    other,
                ) == find_instance_spec(s0, other) by {
                    lemma_find_instance_remove_other(s0, idx as int, other);
                }
                assert forall|i: int, j: int| 0 <= i < j < t.len() implies t[i].instance_id
                    != t[j].instance_id by {
                    if j < idx {
                        assert(t[i] == s0[i] && t[j] == s0[j]);
                    } else if i < idx {
                        assert(t[i] == s0[i] && t[j] == s0[j + 1]);
                    } else {
                        assert(t[i] == s0[i + 1] && t[j] == s0[j + 1]);
                    }
                }
            }
        } else {
            let updated = InventoryItemInstance { quantity: inst.quantity - 1, ..inst };
            self.instances[idx] = updated;
            proof {
                let t = self.instances@;
                lemma_find_instance_first(t, item_instance_id, idx as int);
                assert forall|other: u64| other != item_instance_id implies find_instance_spec(
                    t,
                    other,
                ) == find_instance_spec(s0, other) by {
                    lemma_find_instance_update_other(s0, idx as int, updated, other);
                }
            }
        }

        let ghost a0 = old(self).actors@;
        if let Some(e) = effect {
            let new_vitals = apply_effect(&actor, &e);
            self.actors[actor_idx] = new_vitals;
            proof {
                let t = self.actors@;
                lemma_find_actor_first(t, sender, actor_idx as int);
                assert forall|other: u64| other != sender implies find_actor_spec(t, other)
                    == find_actor_spec(a0, other) by {
                    lemma_find_actor_update_other(a0, actor_idx as int, new_vitals, other);
                }
            }
        }
        Ok(())
    }
}

/// Ownership invariant: a request on an instance owned by a different actor
/// is rejected with `NotOwner` (and, by `consume_item`'s contract, leaves
/// the store unchanged).
pub proof fn lemma_ownership_rejected(s: Storage, sender: u64, item_instance_id: u64)
    requires
        find_instance_spec(s.instances@, item_instance_id) matches Some(inst) && inst.owner_identity
            != sender,
    ensures
        consume_check(s, sender, item_instance_id) == Some(ConsumeError::NotOwner),
{
}

} // verus!
