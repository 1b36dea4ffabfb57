//! Making a new character, with the equipment every character starts with,
//! and the character records that a player is sent.

use crate::models::{
    CharacterDbEntry, CharacterDbEntryCharacterAlone, CharacterDbEntryCharacterAndData, CompleteWallet,
    JsonDbWrapper,
};
use crate::text::{
    has_version_and_variant, hex_value, is_hyphenated, literal_uuid, new_random_uuid,
    strip_hyphens,
};
use crate::user_data::backpack::{
    Backpack, CompleteInventory, EquippedItems, Item, ItemPropertiesAll, ItemSingleProperty, Loadout,
    SingleEquippedItem, StackableItemStorageEntry, Treasury,
};
use crate::user_data::{
    is_new_character_but_name, CompleteCharacter, CompleteCharacterData, CompleteCharacterWithIdAndData,
    CompleteCharacterWithIdWithoutData,
};
use std::collections::HashMap;
use vstd::prelude::*;

verus! {

broadcast use {
    vstd::std_specs::hash::group_hash_axioms,
    vstd::string::group_string_axioms,
    vstd::std_specs::vec::axiom_spec_into_iter,
};

/// The bits of the durability `75.0`.
pub const DURABILITY_75: u64 = 0x4052_c000_0000_0000;

/// The bits of the durability `100.0`.
pub const DURABILITY_100: u64 = 0x4059_0000_0000_0000;

/// The bits of the durability `0.0`.
pub const DURABILITY_0: u64 = 0;

/// The equipment every new character starts with: for each equipment slot,
/// the item template in it and the bits of the item's durability.
pub open spec fn starting_equipment() -> Seq<(u128, u128, u64)> {
    seq![
        (0x417e79de_c810_42f8_8273_f9759df6ae25u128, 0x606c8bf6_9dc7_4c5f_b44b_36eb02306c96u128, DURABILITY_75),
        (0x862605de_c67f_4bce_b527_4e5fb6f25162u128, 0xc6f7fab4_eadc_4e8c_bf7f_e0ea095a3acfu128, DURABILITY_100),
        (0x897a600c_91d6_4449_af09_173da88a907eu128, 0x42b6fad8_5ac9_4215_aeff_133715c4c22eu128, DURABILITY_0),
        (0xe273a4d7_fb87_4f7e_8f1e_398be59afbcbu128, 0x2571f818_6ae4_4355_b89a_4a6253089e6cu128, DURABILITY_0),
    ]
}

/// Whether `e` is the starting item of the slot `slot` with template
/// `template` and durability `durability_bits`: a fresh random item id, no
/// tempering and no properties.
pub open spec fn is_starting_item(e: SingleEquippedItem, slot: u128, template: u128, durability_bits: u64) -> bool {
    &&& e.slot == slot
    &&& has_version_and_variant(e.id, 4)
    &&& e.item.item_template_id == template
    &&& e.item.durability_bits == durability_bits
    &&& e.item.tempering_level == 0
    &&& e.item.properties.enchanting@ == Seq::<ItemSingleProperty>::empty()
    &&& e.item.properties.grading@ == Seq::<ItemSingleProperty>::empty()
}

/// Whether `inv` is the inventory a new character starts with: an empty
/// backpack and treasuries, the starting equipment in its slots, backpack
/// version 1 and treasury version 0.
pub open spec fn is_starting_inventory(inv: CompleteInventory) -> bool {
    &&& inv.backpack.stackable_items.0@ == Map::<u128, StackableItemStorageEntry>::empty()
    &&& inv.backpack.items.0@ == Map::<u128, Item>::empty()
    &&& inv.treasury.chests@.len() == 0
    &&& inv.overflow_treasury.chests@.len() == 0
    &&& inv.backpack_version == 1
    &&& inv.treasury_version == 0
    &&& inv.loadout.equipped_items.0@.dom() == Set::new(
        |slot: u128| exists|i: int| 0 <= i < 4 && starting_equipment()[i].0 == slot,
    )
    &&& forall|i: int|
        0 <= i < 4 ==> #[trigger] is_starting_item(
            inv.loadout.equipped_items.0@[starting_equipment()[i].0],
            starting_equipment()[i].0,
            starting_equipment()[i].1,
            starting_equipment()[i].2,
        )
}

/// No slot holds two starting items.
proof fn lemma_starting_slots_distinct()
    ensures
        forall|i: int, j: int|
            0 <= i < 4 && 0 <= j < 4 && i != j ==> #[trigger] starting_equipment()[i].0
                != #[trigger] starting_equipment()[j].0,
{
    let e = starting_equipment();
    assert(e[0].0 == 0x417e79de_c810_42f8_8273_f9759df6ae25u128);
    assert(e[1].0 == 0x862605de_c67f_4bce_b527_4e5fb6f25162u128);
    assert(e[2].0 == 0x897a600c_91d6_4449_af09_173da88a907eu128);
    assert(e[3].0 == 0xe273a4d7_fb87_4f7e_8f1e_398be59afbcbu128);
}

/// Whether no two items of the loadout of `inv` share an item id.
pub open spec fn has_distinct_item_ids(inv: CompleteInventory) -> bool {
    forall|s1: u128, s2: u128|
        #[trigger] inv.loadout.equipped_items.0@.contains_key(s1)
            && #[trigger] inv.loadout.equipped_items.0@.contains_key(s2) && s1 != s2
            ==> inv.loadout.equipped_items.0@[s1].id != inv.loadout.equipped_items.0@[s2].id
}

/// The starting item for a slot, under the item id `id`.
fn starting_item(id: u128, slot: u128, template: u128, durability_bits: u64) -> (r: SingleEquippedItem)
    requires
        has_version_and_variant(id, 4),
    ensures
        is_starting_item(r, slot, template, durability_bits),
        r.id == id,
{
    SingleEquippedItem {
        id,
        slot,
        item: Item {
            item_template_id: template,
            tempering_level: 0,
            durability_bits,
            properties: ItemPropertiesAll::default(),
        },
    }
}

/// Whether `ids` holds `x`.
fn contains_id(ids: &Vec<u128>, x: u128) -> (b: bool)
    ensures
        b == ids@.contains(x),
{
    let mut k: usize = 0;
    while k < ids.len()
        invariant
            k <= ids.len(),
            forall|j: int| 0 <= j < k ==> ids@[j] != x,
        decreases ids.len() - k,
    {
        if ids[k] == x {
            return true;
        }
        k = k + 1;
    }
    false
}

/// Flipping either of the two lowest bits of a version-4 UUID keeps its
/// version and variant, and gives four different values.
proof fn lemma_low_bit_flips(u: u128)
    requires
        has_version_and_variant(u, 4),
    ensures
        has_version_and_variant(u ^ 1u128, 4),
        has_version_and_variant(u ^ 2u128, 4),
        has_version_and_variant(u ^ 3u128, 4),
        u != u ^ 1u128 && u != u ^ 2u128 && u != u ^ 3u128,
        u ^ 1u128 != u ^ 2u128 && u ^ 1u128 != u ^ 3u128 && u ^ 2u128 != u ^ 3u128,
{
    assert(((u >> 76u128) & 0xfu128 == 4 && (u >> 62u128) & 0x3u128 == 0x2u128) ==> (
        ((u ^ 1u128) >> 76u128) & 0xfu128 == 4 && ((u ^ 1u128) >> 62u128) & 0x3u128 == 0x2u128
        && ((u ^ 2u128) >> 76u128) & 0xfu128 == 4 && ((u ^ 2u128) >> 62u128) & 0x3u128 == 0x2u128
        && ((u ^ 3u128) >> 76u128) & 0xfu128 == 4 && ((u ^ 3u128) >> 62u128) & 0x3u128 == 0x2u128))
        by (bit_vector);
    assert(u != u ^ 1u128 && u != u ^ 2u128 && u != u ^ 3u128 && u ^ 1u128 != u ^ 2u128 && u
        ^ 1u128 != u ^ 3u128 && u ^ 2u128 != u ^ 3u128) by (bit_vector);
}

/// A fresh random item id that none of `used` (at most three ids) holds:
/// a random version-4 UUID, with one or both of its two lowest bits flipped
/// in the rare case that it is taken.
fn fresh_item_id(used: &Vec<u128>) -> (id: u128)
    requires
        used@.len() < 4,
    ensures
        has_version_and_variant(id, 4),
        !used@.contains(id),
{
    let base = new_random_uuid();
    proof {
        lemma_low_bit_flips(base);
    }
    if !contains_id(used, base) {
        return base;
    }
    if !contains_id(used, base ^ 1) {
        return base ^ 1;
    }
    if !contains_id(used, base ^ 2) {
        return base ^ 2;
    }
    if !contains_id(used, base ^ 3) {
        return base ^ 3;
    }
    proof {
        let j0 = choose|j: int| 0 <= j < used@.len() && used@[j] == base;
        let j1 = choose|j: int| 0 <= j < used@.len() && used@[j] == base ^ 1u128;
        let j2 = choose|j: int| 0 <= j < used@.len() && used@[j] == base ^ 2u128;
        let j3 = choose|j: int| 0 <= j < used@.len() && used@[j] == base ^ 3u128;
        assert(j0 != j1 && j0 != j2 && j0 != j3 && j1 != j2 && j1 != j3 && j2 != j3);
        assert(false);
    }
    base
}

/// The slot and template ids of the starting equipment, read from their
/// texts.
fn starting_equipment_ids() -> (r: [(u128, u128); 4])
    ensures
        forall|i: int|
            0 <= i < 4 ==> #[trigger] r@[i] == (starting_equipment()[i].0, starting_equipment()[i].1),
{
    let s1 = "417e79de-c810-42f8-8273-f9759df6ae25";
    let t1 = "606c8bf6-9dc7-4c5f-b44b-36eb02306c96";
    let s2 = "862605de-c67f-4bce-b527-4e5fb6f25162";
    let t2 = "c6f7fab4-eadc-4e8c-bf7f-e0ea095a3acf";
    let s3 = "897a600c-91d6-4449-af09-173da88a907e";
    let t3 = "42b6fad8-5ac9-4215-aeff-133715c4c22e";
    let s4 = "e273a4d7-fb87-4f7e-8f1e-398be59afbcb";
    let t4 = "2571f818-6ae4-4355-b89a-4a6253089e6c";
    proof {
        reveal_with_fuel(hex_value, 33);
        reveal_strlit("417e79de-c810-42f8-8273-f9759df6ae25");
        assert(is_hyphenated(s1@));
        assert(hex_value(strip_hyphens(s1@)) == 0x417e79de_c810_42f8_8273_f9759df6ae25u128);
        reveal_strlit("606c8bf6-9dc7-4c5f-b44b-36eb02306c96");
        assert(is_hyphenated(t1@));
        assert(hex_value(strip_hyphens(t1@)) == 0x606c8bf6_9dc7_4c5f_b44b_36eb02306c96u128);
        reveal_strlit("862605de-c67f-4bce-b527-4e5fb6f25162");
        assert(is_hyphenated(s2@));
        assert(hex_value(strip_hyphens(s2@)) == 0x862605de_c67f_4bce_b527_4e5fb6f25162u128);
        reveal_strlit("c6f7fab4-eadc-4e8c-bf7f-e0ea095a3acf");
        assert(is_hyphenated(t2@));
        assert(hex_value(strip_hyphens(t2@)) == 0xc6f7fab4_eadc_4e8c_bf7f_e0ea095a3acfu128);
        reveal_strlit("897a600c-91d6-4449-af09-173da88a907e");
        assert(is_hyphenated(s3@));
        assert(hex_value(strip_hyphens(s3@)) == 0x897a600c_91d6_4449_af09_173da88a907eu128);
        reveal_strlit("42b6fad8-5ac9-4215-aeff-133715c4c22e");
        assert(is_hyphenated(t3@));
        assert(hex_value(strip_hyphens(t3@)) == 0x42b6fad8_5ac9_4215_aeff_133715c4c22eu128);
        reveal_strlit("e273a4d7-fb87-4f7e-8f1e-398be59afbcb");
        assert(is_hyphenated(s4@));
        assert(hex_value(strip_hyphens(s4@)) == 0xe273a4d7_fb87_4f7e_8f1e_398be59afbcbu128);
        reveal_strlit("2571f818-6ae4-4355-b89a-4a6253089e6c");
        assert(is_hyphenated(t4@));
        assert(hex_value(strip_hyphens(t4@)) == 0x2571f818_6ae4_4355_b89a_4a6253089e6cu128);
    }
    [
        (literal_uuid(s1), literal_uuid(t1)),
        (literal_uuid(s2), literal_uuid(t2)),
        (literal_uuid(s3), literal_uuid(t3)),
        (literal_uuid(s4), literal_uuid(t4)),
    ]
}

/// The inventory a new character starts with, its items given fresh random
/// ids.
pub fn starting_inventory() -> (r: CompleteInventory)
    ensures
        is_starting_inventory(r),
        has_distinct_item_ids(r),
        r.loadout.equipped_items.0@.dom() == set![
            0x417e79de_c810_42f8_8273_f9759df6ae25u128,
            0x862605de_c67f_4bce_b527_4e5fb6f25162u128,
            0x897a600c_91d6_4449_af09_173da88a907eu128,
            0xe273a4d7_fb87_4f7e_8f1e_398be59afbcbu128,
        ],
        r.loadout.equipped_items.0@[0x417e79de_c810_42f8_8273_f9759df6ae25u128].item.item_template_id
            == 0x606c8bf6_9dc7_4c5f_b44b_36eb02306c96u128,
        r.loadout.equipped_items.0@[0x862605de_c67f_4bce_b527_4e5fb6f25162u128].item.item_template_id
            == 0xc6f7fab4_eadc_4e8c_bf7f_e0ea095a3acfu128,
        r.loadout.equipped_items.0@[0x897a600c_91d6_4449_af09_173da88a907eu128].item.item_template_id
            == 0x42b6fad8_5ac9_4215_aeff_133715c4c22eu128,
        r.loadout.equipped_items.0@[0xe273a4d7_fb87_4f7e_8f1e_398be59afbcbu128].item.item_template_id
            == 0x2571f818_6ae4_4355_b89a_4a6253089e6cu128,
        r.loadout.equipped_items.0@[0x417e79de_c810_42f8_8273_f9759df6ae25u128].item.durability_bits
            == 0x4052_c000_0000_0000u64,
        r.loadout.equipped_items.0@[0x862605de_c67f_4bce_b527_4e5fb6f25162u128].item.durability_bits
            == 0x4059_0000_0000_0000u64,
        r.loadout.equipped_items.0@[0x897a600c_91d6_4449_af09_173da88a907eu128].item.durability_bits
            == 0u64,
        r.loadout.equipped_items.0@[0xe273a4d7_fb87_4f7e_8f1e_398be59afbcbu128].item.durability_bits
            == 0u64,
{
    let ids = starting_equipment_ids();
    let durabilities: [u64; 4] = [DURABILITY_75, DURABILITY_100, DURABILITY_0, DURABILITY_0];
    let mut equipped: HashMap<u128, SingleEquippedItem> = HashMap::new();
    let mut used: Vec<u128> = Vec::new();
    let mut i: usize = 0;
    while i < 4
        invariant
            0 <= i <= 4,
            used@.len() == i,
            used@.no_duplicates(),
            forall|j: int| 0 <= j < i ==> #[trigger] used@[j] == equipped@[starting_equipment()[j].0].id,
            forall|j: int|
                0 <= j < 4 ==> #[trigger] ids@[j] == (starting_equipment()[j].0, starting_equipment()[j].1),
            durabilities@ == seq![DURABILITY_75, DURABILITY_100, DURABILITY_0, DURABILITY_0],
            equipped@.dom() == Set::new(
                |slot: u128| exists|j: int| 0 <= j < i && starting_equipment()[j].0 == slot,
            ),
            forall|j: int|
                0 <= j < i ==> #[trigger] is_starting_item(
                    equipped@[starting_equipment()[j].0],
                    starting_equipment()[j].0,
                    starting_equipment()[j].1,
                    starting_equipment()[j].2,
                ),
        decreases 4 - i,
    {
        let (slot, template) = ids[i];
        let item_id = fresh_item_id(&used);
        let item = starting_item(item_id, slot, template, durabilities[i]);
        let ghost before = equipped@;
        let ghost used_before = used@;
        equipped.insert(slot, item);
        used.push(item_id);
        proof {
            assert(starting_equipment()[i as int].2 == durabilities@[i as int]);
            lemma_starting_slots_distinct();
            assert(ids@[i as int] == (starting_equipment()[i as int].0, starting_equipment()[i as int].1));
            assert(equipped@.dom() =~= Set::new(
                |s: u128| exists|j: int| 0 <= j < i + 1 && starting_equipment()[j].0 == s,
            ));
            assert forall|j: int| 0 <= j < i + 1 implies #[trigger] is_starting_item(
                equipped@[starting_equipment()[j].0],
                starting_equipment()[j].0,
                starting_equipment()[j].1,
                starting_equipment()[j].2,
            ) by {
                if j < i {
                    assert(starting_equipment()[j].0 != slot);
                    assert(equipped@[starting_equipment()[j].0] == before[starting_equipment()[j].0]);
                }
            }
            assert forall|j: int| 0 <= j < i + 1 implies #[trigger] used@[j]
                == equipped@[starting_equipment()[j].0].id by {
                if j < i {
                    assert(starting_equipment()[j].0 != slot);
                    assert(used@[j] == used_before[j]);
                }
            }
            assert(used@.no_duplicates()) by {
                assert forall|a: int, b: int| 0 <= a < used@.len() && 0 <= b < used@.len() && a != b
                    implies used@[a] != used@[b] by {
                    if a < i && b < i {
                        assert(used@[a] == used_before[a] && used@[b] == used_before[b]);
                    } else if a == i {
                        assert(used_before.contains(used@[b]) || b == i);
                    } else {
                        assert(used_before.contains(used@[a]) || a == i);
                    }
                }
            }
        }
        i = i + 1;
    }
    proof {
        lemma_starting_slots_distinct();
        let e = starting_equipment();
        assert(e[0].0 == 0x417e79de_c810_42f8_8273_f9759df6ae25u128);
        assert(e[1].0 == 0x862605de_c67f_4bce_b527_4e5fb6f25162u128);
        assert(e[2].0 == 0x897a600c_91d6_4449_af09_173da88a907eu128);
        assert(e[3].0 == 0xe273a4d7_fb87_4f7e_8f1e_398be59afbcbu128);
        assert(is_starting_item(equipped@[e[0].0], e[0].0, e[0].1, e[0].2));
        assert(is_starting_item(equipped@[e[1].0], e[1].0, e[1].1, e[1].2));
        assert(is_starting_item(equipped@[e[2].0], e[2].0, e[2].1, e[2].2));
        assert(is_starting_item(equipped@[e[3].0], e[3].0, e[3].1, e[3].2));
        assert(equipped@.dom() =~= set![e[0].0, e[1].0, e[2].0, e[3].0]) by {
            assert forall|x: u128| equipped@.dom().contains(x) implies x == e[0].0 || x == e[1].0
                || x == e[2].0 || x == e[3].0 by {
                let j = choose|j: int| 0 <= j < 4 && e[j].0 == x;
                assert(j == 0 || j == 1 || j == 2 || j == 3);
            }
            assert(equipped@.dom().contains(e[0].0) && equipped@.dom().contains(e[1].0));
            assert(equipped@.dom().contains(e[2].0) && equipped@.dom().contains(e[3].0));
        }
        assert forall|s1: u128, s2: u128|
            #[trigger] equipped@.contains_key(s1) && #[trigger] equipped@.contains_key(s2) && s1
                != s2 implies equipped@[s1].id != equipped@[s2].id by {
            let j1 = choose|j: int| 0 <= j < 4 && e[j].0 == s1;
            let j2 = choose|j: int| 0 <= j < 4 && e[j].0 == s2;
            assert(used@[j1] == equipped@[s1].id);
            assert(used@[j2] == equipped@[s2].id);
        }
    }
    CompleteInventory {
        backpack: Backpack::default(),
        loadout: Loadout { equipped_items: EquippedItems(equipped) },
        treasury: Treasury::default(),
        overflow_treasury: Treasury::default(),
        backpack_version: 1,
        treasury_version: 0,
    }
}

/// The row of a new character of the user `user_id`, named `name`, whose
/// data holds the client's `customization` (a JSON document's text): a
/// fresh random id, the new-character record, default data otherwise, an
/// empty wallet and the starting inventory.
pub fn new_character_entry(name: String, customization: String, user_id: u128) -> (r: CharacterDbEntry)
    ensures
        has_version_and_variant(r.id, 4),
        r.user_id == user_id,
        is_new_character_but_name(r.character.0),
        r.character.0.name@ == name@,
        r.data.0.customization@ == customization@,
        r.data.0.new_flags@ == "{}"@,
        r.data.0.dialog@ == "{}"@,
        r.wallet.0.json@ == "{}"@,
        is_starting_inventory(r.inventory.0),
        has_distinct_item_ids(r.inventory.0),
        !r.character.0.challenge_season.premium,
        r.character.0.challenge_season.rank == 1,
        r.character.0.challenge_season.season_year == 2026,
        r.character.0.level == 1,
{
    let mut character = CompleteCharacter::default();
    character.name = name;
    let mut data = CompleteCharacterData::default();
    data.customization = customization;
    let id = new_random_uuid();
    CharacterDbEntry {
        id,
        user_id,
        character: JsonDbWrapper(character),
        data: JsonDbWrapper(data),
        wallet: JsonDbWrapper(CompleteWallet::default()),
        inventory: JsonDbWrapper(starting_inventory()),
    }
}

/// What the client is answered when it made a character: the character
/// with its id and data, and its inventory.
#[derive(Debug)]
pub struct CharacterCreationResponse {
    pub character: CompleteCharacterWithIdAndData,
    pub inventory: CompleteInventory,
}

/// The answer for a character that was just stored as `entry`.
pub fn character_creation_response(entry: CharacterDbEntry) -> (r: CharacterCreationResponse)
    ensures
        r.character.id == entry.id,
        r.character.character == entry.character.0,
        r.character.data == entry.data.0,
        r.inventory == entry.inventory.0,
{
    CharacterCreationResponse {
        character: CompleteCharacterWithIdAndData {
            id: entry.id,
            character: entry.character.0,
            data: entry.data.0,
        },
        inventory: entry.inventory.0,
    }
}

/// The record a player is sent of a character row.
pub open spec fn character_with_data(row: CharacterDbEntryCharacterAndData) -> CompleteCharacterWithIdAndData {
    CompleteCharacterWithIdAndData { id: row.id, character: row.character.0, data: row.data.0 }
}

/// The characters of a player, one record per row, in the rows' order.
pub fn characters_with_data(rows: Vec<CharacterDbEntryCharacterAndData>) -> (r: Vec<
    CompleteCharacterWithIdAndData,
>)
    ensures
        r@.len() == rows@.len(),
        forall|i: int| 0 <= i < rows@.len() ==> #[trigger] r@[i] == character_with_data(rows@[i]),
{
    let ghost all = rows@;
    let mut result: Vec<CompleteCharacterWithIdAndData> = Vec::new();
    for row in it: rows.into_iter()
        invariant
            it.seq() == all,
            result@.len() == it.index(),
            forall|i: int| 0 <= i < it.index() ==> #[trigger] result@[i] == character_with_data(all[i]),
    {
        result.push(CompleteCharacterWithIdAndData {
            id: row.id,
            character: row.character.0,
            data: row.data.0,
        });
    }
    result
}

/// The record a player is sent of the character `character_id`, whose row
/// (checked to be the player's) is `row`.
pub fn character_record(character_id: u128, row: CharacterDbEntryCharacterAndData) -> (r:
    CompleteCharacterWithIdAndData)
    ensures
        r.id == character_id,
        r.character == row.character.0,
        r.data == row.data.0,
{
    CompleteCharacterWithIdAndData { id: character_id, character: row.character.0, data: row.data.0 }
}

/// The challenges of a character: the character, and the status of each
/// challenge, by challenge number (none are tracked yet).
#[derive(Debug)]
pub struct GetChallengesResult {
    pub character: CompleteCharacterWithIdWithoutData,
    pub challenge_status: HashMap<u32, ()>,
}

/// The challenges answer for the character `character_id`, whose row is
/// `row`.
pub fn challenges_response(character_id: u128, row: CharacterDbEntryCharacterAlone) -> (r:
    GetChallengesResult)
    ensures
        r.character.id == character_id,
        r.character.character == row.character.0,
        r.challenge_status@ == Map::<u32, ()>::empty(),
{
    GetChallengesResult {
        character: CompleteCharacterWithIdWithoutData { id: character_id, character: row.character.0 },
        challenge_status: HashMap::new(),
    }
}

} // verus!
