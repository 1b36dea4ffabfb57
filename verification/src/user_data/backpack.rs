//! Backpack, loadout and treasury of a character, and the partial updates
//! that tell the game client what changed.

use crate::{partition_watched, view_map, ExactCopy};
use std::collections::{HashMap, HashSet};
use vstd::prelude::*;

verus! {

broadcast use vstd::std_specs::hash::group_hash_axioms;

/// How many of one stackable item a backpack holds.
#[derive(Clone, Copy, Debug)]
pub struct StackableItemStorageEntry {
    pub count: u64,
}

impl View for StackableItemStorageEntry {
    type V = StackableItemStorageEntry;

    open spec fn view(&self) -> StackableItemStorageEntry {
        *self
    }
}

impl ExactCopy for StackableItemStorageEntry {
    fn exact_copy(&self) -> (r: Self) {
        *self
    }
}

/// Stackable items, by item template id.
#[derive(Debug)]
pub struct StackableItems(pub HashMap<u128, StackableItemStorageEntry>);

impl Default for StackableItems {
    fn default() -> (r: Self)
        ensures
            r.0@ == Map::<u128, StackableItemStorageEntry>::empty(),
    {
        StackableItems(HashMap::new())
    }
}

/// One enchanting or grading property of an item.
#[derive(Clone, Copy, Debug)]
pub struct ItemSingleProperty {
    pub id: u128,
    pub tier: u64,
}

/// The properties of an item.
#[derive(Debug)]
pub struct ItemPropertiesAll {
    pub enchanting: Vec<ItemSingleProperty>,
    pub grading: Vec<ItemSingleProperty>,
}

/// The properties of an item, as values.
pub struct PropertiesView {
    pub enchanting: Seq<ItemSingleProperty>,
    pub grading: Seq<ItemSingleProperty>,
}

impl View for ItemPropertiesAll {
    type V = PropertiesView;

    open spec fn view(&self) -> PropertiesView {
        PropertiesView { enchanting: self.enchanting@, grading: self.grading@ }
    }
}

impl Default for ItemPropertiesAll {
    fn default() -> (r: Self)
        ensures
            r.enchanting@ == Seq::<ItemSingleProperty>::empty(),
            r.grading@ == Seq::<ItemSingleProperty>::empty(),
    {
        ItemPropertiesAll { enchanting: Vec::new(), grading: Vec::new() }
    }
}

impl ExactCopy for ItemPropertiesAll {
    fn exact_copy(&self) -> (r: Self) {
        let r = ItemPropertiesAll { enchanting: self.enchanting.clone(), grading: self.grading.clone() };
        assert(r.enchanting@ =~= self.enchanting@);
        assert(r.grading@ =~= self.grading@);
        r
    }
}

/// A (non-stackable) item. `durability_bits` holds the bits of the `f64`
/// durability.
#[derive(Debug)]
pub struct Item {
    pub item_template_id: u128,
    pub tempering_level: u64,
    pub durability_bits: u64,
    pub properties: ItemPropertiesAll,
}

/// An item, as a value.
pub struct ItemView {
    pub item_template_id: u128,
    pub tempering_level: u64,
    pub durability_bits: u64,
    pub properties: PropertiesView,
}

impl View for Item {
    type V = ItemView;

    open spec fn view(&self) -> ItemView {
        ItemView {
            item_template_id: self.item_template_id,
            tempering_level: self.tempering_level,
            durability_bits: self.durability_bits,
            properties: self.properties@,
        }
    }
}

impl ExactCopy for Item {
    fn exact_copy(&self) -> (r: Self) {
        Item {
            item_template_id: self.item_template_id,
            tempering_level: self.tempering_level,
            durability_bits: self.durability_bits,
            properties: self.properties.exact_copy(),
        }
    }
}

/// Items, by item id.
#[derive(Debug)]
pub struct Items(pub HashMap<u128, Item>);

impl Default for Items {
    fn default() -> (r: Self)
        ensures
            r.0@ == Map::<u128, Item>::empty(),
    {
        Items(HashMap::new())
    }
}

impl View for Items {
    type V = Map<u128, ItemView>;

    open spec fn view(&self) -> Map<u128, ItemView> {
        view_map(self.0@)
    }
}

impl ExactCopy for Items {
    fn exact_copy(&self) -> (r: Self) {
        Items(crate::copy_map(&self.0))
    }
}

impl Items {
    pub fn is_empty(&self) -> (r: bool)
        ensures
            r == (self.0@.len() == 0),
    {
        self.0.is_empty()
    }
}

#[derive(Debug)]
pub struct Backpack {
    pub stackable_items: StackableItems,
    pub items: Items,
}

impl Default for Backpack {
    fn default() -> (r: Self)
        ensures
            r.stackable_items.0@ == Map::<u128, StackableItemStorageEntry>::empty(),
            r.items.0@ == Map::<u128, Item>::empty(),
    {
        Backpack { stackable_items: StackableItems::default(), items: Items::default() }
    }
}

/// What the client is told of a backpack: the current entries of the ids
/// that changed, and the changed ids that are gone.
#[derive(Debug)]
pub struct BackpackUpdate {
    pub stackable_items: StackableItems,
    pub items: Items,
    pub removed_items: HashSet<u128>,
    pub removed_stackable_items: HashSet<u128>,
}

/// The entries of `current` whose ids are in `changed`.
pub open spec fn changed_entries<V>(current: Map<u128, V>, changed: Set<u128>) -> Map<u128, V> {
    current.restrict(changed)
}

/// The ids of `changed` that `current` no longer holds.
pub open spec fn removed_ids<V>(current: Map<u128, V>, changed: Set<u128>) -> Set<u128> {
    changed.difference(current.dom())
}

/// A client's copy of a map after it applies an update: the sent entries
/// replace its own, and the removed ids leave it.
pub open spec fn apply_update<V>(client: Map<u128, V>, sent: Map<u128, V>, removed: Set<u128>) -> Map<
    u128,
    V,
> {
    client.union_prefer_right(sent).remove_keys(removed)
}

/// Client synchronisation: a client that applies the update made for a set
/// of changed ids ends up, on every changed id, with exactly what the
/// server holds, and keeps its own entries for every other id. The sent
/// entries and the removed ids together cover the changed ids, without
/// overlap.
pub proof fn lemma_update_syncs_changed_ids<V>(
    client: Map<u128, V>,
    server: Map<u128, V>,
    changed: Set<u128>,
)
    ensures
        ({
            let after = apply_update(
                client,
                changed_entries(server, changed),
                removed_ids(server, changed),
            );
            &&& forall|k: u128|
                changed.contains(k) ==> (#[trigger] after.contains_key(k) <==> server.contains_key(
                    k,
                ))
            &&& forall|k: u128|
                changed.contains(k) && server.contains_key(k) ==> #[trigger] after[k] == server[k]
            &&& forall|k: u128|
                !changed.contains(k) ==> (#[trigger] after.contains_key(k) <==> client.contains_key(
                    k,
                ))
            &&& forall|k: u128|
                !changed.contains(k) && client.contains_key(k) ==> #[trigger] after[k] == client[k]
            &&& changed_entries(server, changed).dom().disjoint(removed_ids(server, changed))
            &&& changed_entries(server, changed).dom().union(removed_ids(server, changed))
                == changed
        }),
{
    let sent = changed_entries(server, changed);
    let removed = removed_ids(server, changed);
    assert(sent.dom().union(removed) =~= changed);
}

impl Backpack {
    /// The update that tells a client the current state of the stackable
    /// items and items whose ids the tracker lists.
    pub fn generate_client_update(&self, tracker: &BackpackChangeTracker) -> (update: BackpackUpdate)
        ensures
            view_map(update.stackable_items.0@) == changed_entries(
                view_map(self.stackable_items.0@),
                tracker.stackable_items@,
            ),
            update.removed_stackable_items@ == removed_ids(
                self.stackable_items.0@,
                tracker.stackable_items@,
            ),
            update.items@ == changed_entries(self.items@, tracker.items@),
            update.removed_items@ == removed_ids(self.items.0@, tracker.items@),
    {
        let (stackable, removed_stackable) = partition_watched(
            &self.stackable_items.0,
            &tracker.stackable_items,
        );
        let (items, removed_items) = partition_watched(&self.items.0, &tracker.items);
        BackpackUpdate {
            stackable_items: StackableItems(stackable),
            items: Items(items),
            removed_items,
            removed_stackable_items: removed_stackable,
        }
    }
}

/// An item in an equipment slot.
#[derive(Debug)]
pub struct SingleEquippedItem {
    pub id: u128,
    /// The slot that holds this item in the parent `EquippedItems`.
    pub slot: u128,
    pub item: Item,
}

/// An equipped item, as a value.
pub struct EquippedItemView {
    pub id: u128,
    pub slot: u128,
    pub item: ItemView,
}

impl View for SingleEquippedItem {
    type V = EquippedItemView;

    open spec fn view(&self) -> EquippedItemView {
        EquippedItemView { id: self.id, slot: self.slot, item: self.item@ }
    }
}

impl ExactCopy for SingleEquippedItem {
    fn exact_copy(&self) -> (r: Self) {
        SingleEquippedItem { id: self.id, slot: self.slot, item: self.item.exact_copy() }
    }
}

/// Equipped items, by slot id (not by item id).
#[derive(Debug)]
pub struct EquippedItems(pub HashMap<u128, SingleEquippedItem>);

impl Default for EquippedItems {
    fn default() -> (r: Self)
        ensures
            r.0@ == Map::<u128, SingleEquippedItem>::empty(),
    {
        EquippedItems(HashMap::new())
    }
}

#[derive(Debug)]
pub struct Loadout {
    pub equipped_items: EquippedItems,
}

impl Default for Loadout {
    fn default() -> (r: Self)
        ensures
            r.equipped_items.0@ == Map::<u128, SingleEquippedItem>::empty(),
    {
        Loadout { equipped_items: EquippedItems::default() }
    }
}

/// What the client is told of a loadout: the current items of the slots
/// that changed, and the changed slots that are now empty.
#[derive(Debug)]
pub struct LoadoutUpdate {
    pub equipped_items: EquippedItems,
    pub unequipped_item_slots: HashSet<u128>,
}

impl Loadout {
    /// The update that tells a client the current state of the slots that
    /// the tracker lists.
    pub fn generate_client_update(&self, tracker: &LoadoutChangeTracker) -> (update: LoadoutUpdate)
        ensures
            view_map(update.equipped_items.0@) == changed_entries(
                view_map(self.equipped_items.0@),
                tracker.modified_equipped_items@,
            ),
            update.unequipped_item_slots@ == removed_ids(
                self.equipped_items.0@,
                tracker.modified_equipped_items@,
            ),
    {
        let (equipped, unequipped) = partition_watched(
            &self.equipped_items.0,
            &tracker.modified_equipped_items,
        );
        LoadoutUpdate { equipped_items: EquippedItems(equipped), unequipped_item_slots: unequipped }
    }
}

/// A chest of the treasury. `id` is a number written as a string.
#[derive(Debug)]
pub struct Chest {
    pub id: String,
    pub tier: u64,
    pub level: u64,
}

#[derive(Debug)]
pub struct Treasury {
    pub chests: Vec<Chest>,
}

impl Default for Treasury {
    fn default() -> (r: Self)
        ensures
            r.chests@.len() == 0,
    {
        Treasury { chests: Vec::new() }
    }
}

/// Everything a character carries.
#[derive(Debug)]
pub struct CompleteInventory {
    pub backpack: Backpack,
    pub loadout: Loadout,
    pub treasury: Treasury,
    pub overflow_treasury: Treasury,
    pub backpack_version: u64,
    pub treasury_version: u64,
}

/// What the client is told of a whole inventory.
#[derive(Debug)]
pub struct CompleteInventoryUpdate {
    pub backpack: BackpackUpdate,
    pub loadout: LoadoutUpdate,
    pub treasury: Treasury,
    pub overflow_treasury: Treasury,
    pub backpack_version: u64,
    pub treasury_version: u64,
}

impl CompleteInventory {
    /// The update that tells a client what changed in the backpack and the
    /// loadout; the treasuries are sent empty, the versions as they are.
    pub fn generate_client_update(&self, tracker: &InventoryChangeTracker) -> (update:
        CompleteInventoryUpdate)
        ensures
            update.backpack_version == self.backpack_version,
            update.treasury_version == self.treasury_version,
            view_map(update.backpack.stackable_items.0@) == changed_entries(
                view_map(self.backpack.stackable_items.0@),
                tracker.modified_backpack.stackable_items@,
            ),
            update.backpack.removed_stackable_items@ == removed_ids(
                self.backpack.stackable_items.0@,
                tracker.modified_backpack.stackable_items@,
            ),
            update.backpack.items@ == changed_entries(
                self.backpack.items@,
                tracker.modified_backpack.items@,
            ),
            update.backpack.removed_items@ == removed_ids(
                self.backpack.items.0@,
                tracker.modified_backpack.items@,
            ),
            view_map(update.loadout.equipped_items.0@) == changed_entries(
                view_map(self.loadout.equipped_items.0@),
                tracker.modified_loadout.modified_equipped_items@,
            ),
            update.loadout.unequipped_item_slots@ == removed_ids(
                self.loadout.equipped_items.0@,
                tracker.modified_loadout.modified_equipped_items@,
            ),
            update.treasury.chests@.len() == 0,
            update.overflow_treasury.chests@.len() == 0,
    {
        CompleteInventoryUpdate {
            backpack_version: self.backpack_version,
            treasury_version: self.treasury_version,
            backpack: self.backpack.generate_client_update(&tracker.modified_backpack),
            loadout: self.loadout.generate_client_update(&tracker.modified_loadout),
            treasury: Treasury::default(),
            overflow_treasury: Treasury::default(),
        }
    }
}

/// The ids of the backpack entries that changed since the client last
/// heard of them.
#[derive(Debug)]
pub struct BackpackChangeTracker {
    pub stackable_items: HashSet<u128>,
    pub items: HashSet<u128>,
}

impl Default for BackpackChangeTracker {
    fn default() -> (r: Self)
        ensures
            r.stackable_items@ == Set::<u128>::empty(),
            r.items@ == Set::<u128>::empty(),
    {
        BackpackChangeTracker { stackable_items: HashSet::new(), items: HashSet::new() }
    }
}

/// The slots of the loadout that changed.
#[derive(Debug)]
pub struct LoadoutChangeTracker {
    pub modified_equipped_items: HashSet<u128>,
}

impl Default for LoadoutChangeTracker {
    fn default() -> (r: Self)
        ensures
            r.modified_equipped_items@ == Set::<u128>::empty(),
    {
        LoadoutChangeTracker { modified_equipped_items: HashSet::new() }
    }
}

#[derive(Debug)]
pub struct InventoryChangeTracker {
    pub modified_loadout: LoadoutChangeTracker,
    pub modified_backpack: BackpackChangeTracker,
}

impl Default for InventoryChangeTracker {
    fn default() -> (r: Self)
        ensures
            r.modified_loadout.modified_equipped_items@ == Set::<u128>::empty(),
            r.modified_backpack.stackable_items@ == Set::<u128>::empty(),
            r.modified_backpack.items@ == Set::<u128>::empty(),
    {
        InventoryChangeTracker {
            modified_loadout: LoadoutChangeTracker::default(),
            modified_backpack: BackpackChangeTracker::default(),
        }
    }
}

} // verus!
