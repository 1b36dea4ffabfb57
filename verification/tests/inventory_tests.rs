use blades::user_data::backpack::{
    Backpack, BackpackChangeTracker, Chest, CompleteInventory, EquippedItems, InventoryChangeTracker,
    Item, ItemPropertiesAll, ItemSingleProperty, Items, Loadout, LoadoutChangeTracker,
    SingleEquippedItem, StackableItemStorageEntry, StackableItems, Treasury,
};
use std::collections::{HashMap, HashSet};

fn item(template: u128, durability: f64) -> Item {
    Item {
        item_template_id: template,
        tempering_level: 2,
        durability_bits: durability.to_bits(),
        properties: ItemPropertiesAll {
            enchanting: vec![ItemSingleProperty { id: 9, tier: 3 }],
            grading: Vec::new(),
        },
    }
}

fn backpack() -> Backpack {
    let mut stackable = HashMap::new();
    stackable.insert(1u128, StackableItemStorageEntry { count: 5 });
    stackable.insert(2u128, StackableItemStorageEntry { count: 7 });
    let mut items = HashMap::new();
    items.insert(10u128, item(100, 50.0));
    items.insert(11u128, item(101, 75.5));
    Backpack { stackable_items: StackableItems(stackable), items: Items(items) }
}

#[test]
fn items_is_empty() {
    assert!(Items(HashMap::new()).is_empty());
    assert!(!backpack().items.is_empty());
}

#[test]
fn backpack_update_sends_changed_and_removed_ids() {
    let bp = backpack();
    let tracker = BackpackChangeTracker {
        stackable_items: HashSet::from([1u128, 3u128]),
        items: HashSet::from([11u128, 12u128]),
    };
    let update = bp.generate_client_update(&tracker);
    assert_eq!(update.stackable_items.0.len(), 1);
    assert_eq!(update.stackable_items.0[&1].count, 5);
    assert_eq!(update.removed_stackable_items, HashSet::from([3u128]));
    assert_eq!(update.items.0.len(), 1);
    let sent = &update.items.0[&11];
    assert_eq!(sent.item_template_id, 101);
    assert_eq!(f64::from_bits(sent.durability_bits), 75.5);
    assert_eq!(sent.tempering_level, 2);
    assert_eq!(sent.properties.enchanting.len(), 1);
    assert_eq!(sent.properties.enchanting[0].tier, 3);
    assert_eq!(update.removed_items, HashSet::from([12u128]));
}

#[test]
fn backpack_update_with_empty_tracker_is_empty() {
    let update = backpack().generate_client_update(&BackpackChangeTracker::default());
    assert!(update.stackable_items.0.is_empty());
    assert!(update.items.0.is_empty());
    assert!(update.removed_items.is_empty());
    assert!(update.removed_stackable_items.is_empty());
}

#[test]
fn client_applying_update_matches_server_on_changed_ids() {
    // the client holds an old copy; it applies the update for the changed ids
    let server = backpack();
    let mut client: HashMap<u128, u64> = HashMap::from([(1, 1), (2, 2), (3, 3), (4, 4)]);
    let changed = HashSet::from([1u128, 3u128]);
    let tracker = BackpackChangeTracker { stackable_items: changed.clone(), items: HashSet::new() };
    let update = server.generate_client_update(&tracker);
    for (k, v) in update.stackable_items.0.iter() {
        client.insert(*k, v.count);
    }
    for k in update.removed_stackable_items.iter() {
        client.remove(k);
    }
    for k in changed.iter() {
        assert_eq!(client.get(k).copied(), server.stackable_items.0.get(k).map(|e| e.count));
    }
    assert_eq!(client.get(&2), Some(&2));
    assert_eq!(client.get(&4), Some(&4));
}

fn loadout() -> Loadout {
    let mut equipped = HashMap::new();
    equipped.insert(50u128, SingleEquippedItem { id: 500, slot: 50, item: item(7, 100.0) });
    equipped.insert(51u128, SingleEquippedItem { id: 510, slot: 51, item: item(8, 0.0) });
    Loadout { equipped_items: EquippedItems(equipped) }
}

#[test]
fn loadout_update_sends_changed_slots() {
    let tracker = LoadoutChangeTracker { modified_equipped_items: HashSet::from([51u128, 52u128]) };
    let update = loadout().generate_client_update(&tracker);
    assert_eq!(update.equipped_items.0.len(), 1);
    let e = &update.equipped_items.0[&51];
    assert_eq!((e.id, e.slot, e.item.item_template_id), (510, 51, 8));
    assert_eq!(update.unequipped_item_slots, HashSet::from([52u128]));
}

#[test]
fn inventory_update_combines_parts() {
    let inventory = CompleteInventory {
        backpack: backpack(),
        loadout: loadout(),
        treasury: Treasury { chests: vec![Chest { id: "1".to_string(), tier: 2, level: 3 }] },
        overflow_treasury: Treasury::default(),
        backpack_version: 4,
        treasury_version: 6,
    };
    let tracker = InventoryChangeTracker {
        modified_loadout: LoadoutChangeTracker { modified_equipped_items: HashSet::from([50u128]) },
        modified_backpack: BackpackChangeTracker {
            stackable_items: HashSet::from([2u128]),
            items: HashSet::from([10u128]),
        },
    };
    let update = inventory.generate_client_update(&tracker);
    assert_eq!(update.backpack_version, 4);
    assert_eq!(update.treasury_version, 6);
    assert_eq!(update.backpack.stackable_items.0[&2].count, 7);
    assert_eq!(update.backpack.items.0[&10].item_template_id, 100);
    assert_eq!(update.loadout.equipped_items.0[&50].id, 500);
    assert!(update.loadout.unequipped_item_slots.is_empty());
    assert!(update.treasury.chests.is_empty());
    assert!(update.overflow_treasury.chests.is_empty());
}

#[test]
fn defaults_are_empty() {
    let inventory_tracker = InventoryChangeTracker::default();
    assert!(inventory_tracker.modified_backpack.items.is_empty());
    assert!(inventory_tracker.modified_loadout.modified_equipped_items.is_empty());
    assert!(Backpack::default().items.0.is_empty());
    assert!(Loadout::default().equipped_items.0.is_empty());
    assert!(StackableItems::default().0.is_empty());
    assert!(ItemPropertiesAll::default().grading.is_empty());
    assert!(Treasury::default().chests.is_empty());
}
