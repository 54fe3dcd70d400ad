use consumables::effects::{apply_effect, clamp_stat, lookup};
use consumables::transaction::Storage;
use consumables::types::{
    ActorVitals, ConsumeError, EffectDefinition, InventoryItemInstance, ItemCategory,
    ItemDefinition,
};

fn store_with(
    def: ItemDefinition,
    inst: InventoryItemInstance,
    actor: ActorVitals,
) -> Storage {
    let mut st = Storage::new();
    st.definitions.push(def);
    st.instances.push(inst);
    st.actors.push(actor);
    st
}

#[test]
fn scenario_a_mushroom_from_stack_of_three() {
    let mut st = store_with(
        ItemDefinition { id: 1, name: "Mushroom".to_string(), category: ItemCategory::Consumable },
        InventoryItemInstance { instance_id: 100, owner_identity: 7, item_def_id: 1, quantity: 3 },
        ActorVitals { identity: 7, health: 90, hunger: 50, thirst: 50 },
    );
    let r = st.consume_item(7, 100);
    assert_eq!(r, Ok(()));
    assert_eq!(
        st.actors[0],
        ActorVitals { identity: 7, health: 95, hunger: 60, thirst: 55 }
    );
    assert_eq!(
        st.instances[0],
        InventoryItemInstance { instance_id: 100, owner_identity: 7, item_def_id: 1, quantity: 2 }
    );
}

#[test]
fn scenario_b_corn_clamps_and_depletes() {
    let mut st = store_with(
        ItemDefinition { id: 2, name: "Corn".to_string(), category: ItemCategory::Consumable },
        InventoryItemInstance { instance_id: 200, owner_identity: 9, item_def_id: 2, quantity: 1 },
        ActorVitals { identity: 9, health: 98, hunger: 95, thirst: 99 },
    );
    let r = st.consume_item(9, 200);
    assert_eq!(r, Ok(()));
    assert_eq!(
        st.actors[0],
        ActorVitals { identity: 9, health: 100, hunger: 100, thirst: 100 }
    );
    assert!(st.instances.is_empty());
}

#[test]
fn scenario_c_not_owner_leaves_everything_unchanged() {
    let mut st = store_with(
        ItemDefinition { id: 1, name: "Mushroom".to_string(), category: ItemCategory::Consumable },
        InventoryItemInstance { instance_id: 100, owner_identity: 7, item_def_id: 1, quantity: 3 },
        ActorVitals { identity: 8, health: 40, hunger: 40, thirst: 40 },
    );
    let r = st.consume_item(8, 100);
    assert_eq!(r, Err(ConsumeError::NotOwner));
    assert_eq!(
        st.instances[0],
        InventoryItemInstance { instance_id: 100, owner_identity: 7, item_def_id: 1, quantity: 3 }
    );
    assert_eq!(
        st.actors[0],
        ActorVitals { identity: 8, health: 40, hunger: 40, thirst: 40 }
    );
    assert_eq!(st.definitions.len(), 1);
    assert_eq!(st.definitions[0].name, "Mushroom");
}

#[test]
fn scenario_d_weapon_is_not_consumable() {
    let mut st = store_with(
        ItemDefinition { id: 5, name: "Hunting Bow".to_string(), category: ItemCategory::Weapon },
        InventoryItemInstance { instance_id: 300, owner_identity: 7, item_def_id: 5, quantity: 1 },
        ActorVitals { identity: 7, health: 50, hunger: 50, thirst: 50 },
    );
    let r = st.consume_item(7, 300);
    assert_eq!(r, Err(ConsumeError::NotConsumable));
    assert_eq!(st.instances[0].quantity, 1);
    assert_eq!(
        st.actors[0],
        ActorVitals { identity: 7, health: 50, hunger: 50, thirst: 50 }
    );
}

#[test]
fn missing_instance_gives_item_not_found() {
    let mut st = store_with(
        ItemDefinition { id: 1, name: "Mushroom".to_string(), category: ItemCategory::Consumable },
        InventoryItemInstance { instance_id: 100, owner_identity: 7, item_def_id: 1, quantity: 3 },
        ActorVitals { identity: 7, health: 50, hunger: 50, thirst: 50 },
    );
    let r = st.consume_item(7, 999);
    assert_eq!(r, Err(ConsumeError::ItemNotFound));
    assert_eq!(st.instances[0].quantity, 3);
}

#[test]
fn dangling_definition_gives_definition_not_found() {
    let mut st = Storage::new();
    st.instances.push(InventoryItemInstance {
        instance_id: 100,
        owner_identity: 7,
        item_def_id: 42,
        quantity: 2,
    });
    st.actors.push(ActorVitals { identity: 7, health: 50, hunger: 50, thirst: 50 });
    let r = st.consume_item(7, 100);
    assert_eq!(r, Err(ConsumeError::DefinitionNotFound));
    assert_eq!(st.instances[0].quantity, 2);
}

#[test]
fn missing_vitals_record_gives_actor_not_found() {
    let mut st = Storage::new();
    st.definitions.push(ItemDefinition {
        id: 1,
        name: "Mushroom".to_string(),
        category: ItemCategory::Consumable,
    });
    st.instances.push(InventoryItemInstance {
        instance_id: 100,
        owner_identity: 7,
        item_def_id: 1,
        quantity: 2,
    });
    let r = st.consume_item(7, 100);
    assert_eq!(r, Err(ConsumeError::ActorNotFound));
    assert_eq!(st.instances[0].quantity, 2);
}

#[test]
fn unknown_effect_consumes_but_leaves_vitals_unchanged() {
    let mut st = store_with(
        ItemDefinition { id: 3, name: "Pebble".to_string(), category: ItemCategory::Consumable },
        InventoryItemInstance { instance_id: 400, owner_identity: 7, item_def_id: 3, quantity: 2 },
        ActorVitals { identity: 7, health: 60, hunger: 60, thirst: 60 },
    );
    let r = st.consume_item(7, 400);
    assert_eq!(r, Ok(()));
    assert_eq!(st.instances[0].quantity, 1);
    assert_eq!(
        st.actors[0],
        ActorVitals { identity: 7, health: 60, hunger: 60, thirst: 60 }
    );
}

#[test]
fn unknown_effect_still_depletes_a_single_stack() {
    let mut st = store_with(
        ItemDefinition { id: 3, name: "Pebble".to_string(), category: ItemCategory::Consumable },
        InventoryItemInstance { instance_id: 400, owner_identity: 7, item_def_id: 3, quantity: 1 },
        ActorVitals { identity: 7, health: 60, hunger: 60, thirst: 60 },
    );
    let r = st.consume_item(7, 400);
    assert_eq!(r, Ok(()));
    assert!(st.instances.is_empty());
    assert_eq!(
        st.actors[0],
        ActorVitals { identity: 7, health: 60, hunger: 60, thirst: 60 }
    );
}

#[test]
fn depletion_keeps_other_instances() {
    let mut st = Storage::new();
    st.definitions.push(ItemDefinition {
        id: 1,
        name: "Mushroom".to_string(),
        category: ItemCategory::Consumable,
    });
    st.instances.push(InventoryItemInstance {
        instance_id: 100,
        owner_identity: 7,
        item_def_id: 1,
        quantity: 1,
    });
    st.instances.push(InventoryItemInstance {
        instance_id: 101,
        owner_identity: 7,
        item_def_id: 1,
        quantity: 5,
    });
    st.actors.push(ActorVitals { identity: 7, health: 10, hunger: 10, thirst: 10 });
    let r = st.consume_item(7, 100);
    assert_eq!(r, Ok(()));
    assert_eq!(st.instances.len(), 1);
    assert_eq!(
        st.instances[0],
        InventoryItemInstance { instance_id: 101, owner_identity: 7, item_def_id: 1, quantity: 5 }
    );
}

#[test]
fn only_the_consuming_actor_changes() {
    let mut st = Storage::new();
    st.definitions.push(ItemDefinition {
        id: 1,
        name: "Corn".to_string(),
        category: ItemCategory::Consumable,
    });
    st.instances.push(InventoryItemInstance {
        instance_id: 100,
        owner_identity: 7,
        item_def_id: 1,
        quantity: 2,
    });
    st.actors.push(ActorVitals { identity: 6, health: 30, hunger: 30, thirst: 30 });
    st.actors.push(ActorVitals { identity: 7, health: 30, hunger: 30, thirst: 30 });
    let r = st.consume_item(7, 100);
    assert_eq!(r, Ok(()));
    assert_eq!(
        st.actors[0],
        ActorVitals { identity: 6, health: 30, hunger: 30, thirst: 30 }
    );
    assert_eq!(
        st.actors[1],
        ActorVitals { identity: 7, health: 45, hunger: 55, thirst: 40 }
    );
}

#[test]
fn lookup_knows_exactly_the_registered_names() {
    assert_eq!(
        lookup(&"Mushroom".to_string()),
        Some(EffectDefinition { health_delta: 5, hunger_delta: 10, thirst_delta: 5 })
    );
    assert_eq!(
        lookup(&"Corn".to_string()),
        Some(EffectDefinition { health_delta: 15, hunger_delta: 25, thirst_delta: 10 })
    );
    assert_eq!(lookup(&"mushroom".to_string()), None);
    assert_eq!(lookup(&"Stone".to_string()), None);
    assert_eq!(lookup(&"".to_string()), None);
}

#[test]
fn clamp_bounds_both_ends() {
    assert_eq!(clamp_stat(-1), 0);
    assert_eq!(clamp_stat(0), 0);
    assert_eq!(clamp_stat(55), 55);
    assert_eq!(clamp_stat(100), 100);
    assert_eq!(clamp_stat(101), 100);
    assert_eq!(clamp_stat(113), 100);
}

#[test]
fn apply_effect_clamps_each_stat_independently() {
    let v = ActorVitals { identity: 1, health: 98, hunger: 10, thirst: 0 };
    let e = EffectDefinition { health_delta: 15, hunger_delta: -20, thirst_delta: 5 };
    let r = apply_effect(&v, &e);
    assert_eq!(r, ActorVitals { identity: 1, health: 100, hunger: 0, thirst: 5 });
}

#[test]
fn error_messages_are_descriptive() {
    assert_eq!(
        ConsumeError::NotOwner.message(),
        "Cannot consume an item that does not belong to you."
    );
    assert_eq!(ConsumeError::ItemNotFound.message(), "Item instance not found.");
    assert_eq!(ConsumeError::NotConsumable.message(), "Item is not consumable.");
}
