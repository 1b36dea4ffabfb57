//! Dungeon records: loot, the generated content of a quest's dungeon, and
//! the progress of a character through it.

use crate::text::{
    dec_text, hyphenated_text, is_dec_digit, lemma_parse_dec_text, lemma_uuid_text_roundtrip,
    parse_unsigned_range, parse_uuid, push_dec_text, spec_parse_unsigned, string_push,
    uuid_text_value, uuid_to_string,
};
use crate::user_data::backpack::{ItemView, Items};
use crate::user_data::B64EncodedData;
use crate::{
    keys_seen, lemma_keys_seen_step, lemma_map_iteration, map_iteration, view_map, ExactCopy,
};
use std::collections::HashMap;
use vstd::prelude::*;

verus! {

broadcast use vstd::std_specs::hash::group_hash_axioms;

/// How many of `k` the count map `m` holds (none when absent).
pub open spec fn count_of(m: Map<u128, u64>, k: u128) -> int {
    if m.contains_key(k) {
        m[k] as int
    } else {
        0
    }
}

/// The counts of `a` and `b` added up, key by key.
pub open spec fn merged_counts(a: Map<u128, u64>, b: Map<u128, u64>) -> Map<u128, u64> {
    Map::new(
        |k: u128| a.contains_key(k) || b.contains_key(k),
        |k: u128| (count_of(a, k) + count_of(b, k)) as u64,
    )
}

/// Whether every sum of `merged_counts(a, b)` fits in a `u64`.
pub open spec fn counts_fit(a: Map<u128, u64>, b: Map<u128, u64>) -> bool {
    forall|k: u128| #[trigger] count_of(a, k) + count_of(b, k) <= u64::MAX
}

/// Adds the counts of `add` to those of `target`.
fn add_counts(target: &mut HashMap<u128, u64>, add: &HashMap<u128, u64>)
    requires
        counts_fit(old(target)@, add@),
    ensures
        final(target)@ == merged_counts(old(target)@, add@),
{
    let ghost start = target@;
    let ghost mut done: Set<u128> = Set::empty();
    let entries = add.iter();
    proof {
        lemma_map_iteration(add);
        assert(target@ =~= merged_counts(start, add@.restrict(done)));
    }
    for entry in it: entries
        invariant
            map_iteration(it.seq(), add@),
            done == keys_seen(it.seq(), it.index()),
            counts_fit(start, add@),
            target@ == merged_counts(start, add@.restrict(done)),
    {
        let (k, amount) = entry;
        proof {
            lemma_keys_seen_step(it.seq(), add@, it.index());
            assert(add@.contains_key(*it.seq()[it.index()].0));
            assert(count_of(start, *k) + count_of(add@, *k) <= u64::MAX);
        }
        let current: u64 = match target.get(k) {
            Some(c) => *c,
            None => 0,
        };
        assert(current == count_of(start, *k));
        target.insert(*k, current + *amount);
        proof {
            assert(target@ =~= merged_counts(start, add@.restrict(done.insert(*k))));
            done = done.insert(*k);
        }
    }
    assert(add@.restrict(done) =~= add@);
}

/// Loot: stackable items and currencies with their amounts, and items.
#[derive(Debug)]
pub struct LootTableResult {
    pub stackable_items: HashMap<u128, u64>,
    pub currencies: HashMap<u128, u64>,
    pub item: Items,
}

/// Loot, as values.
pub struct LootView {
    pub stackable_items: Map<u128, u64>,
    pub currencies: Map<u128, u64>,
    pub item: Map<u128, ItemView>,
}

impl View for LootTableResult {
    type V = LootView;

    open spec fn view(&self) -> LootView {
        LootView {
            stackable_items: self.stackable_items@,
            currencies: self.currencies@,
            item: self.item@,
        }
    }
}

impl ExactCopy for LootTableResult {
    fn exact_copy(&self) -> (r: Self) {
        LootTableResult {
            stackable_items: crate::copy_counts(&self.stackable_items),
            currencies: crate::copy_counts(&self.currencies),
            item: self.item.exact_copy(),
        }
    }
}

impl Default for LootTableResult {
    fn default() -> (r: Self)
        ensures
            r@ == empty_loot(),
    {
        let r = LootTableResult {
            stackable_items: HashMap::new(),
            currencies: HashMap::new(),
            item: Items::default(),
        };
        assert(r@.item =~= Map::<u128, ItemView>::empty());
        r
    }
}

/// Loot with nothing in it.
pub open spec fn empty_loot() -> LootView {
    LootView {
        stackable_items: Map::empty(),
        currencies: Map::empty(),
        item: Map::empty(),
    }
}

/// `a` and `b` together: amounts added up, and the items of both, those of
/// `b` replacing those of `a` with the same id.
pub open spec fn merged_loot(a: LootView, b: LootView) -> LootView {
    LootView {
        stackable_items: merged_counts(a.stackable_items, b.stackable_items),
        currencies: merged_counts(a.currencies, b.currencies),
        item: a.item.union_prefer_right(b.item),
    }
}

/// Whether the amounts of `a` and `b` can be added up without overflow.
pub open spec fn loot_fits(a: LootView, b: LootView) -> bool {
    counts_fit(a.stackable_items, b.stackable_items) && counts_fit(a.currencies, b.currencies)
}

impl LootTableResult {
    /// Adds `other` to this loot.
    pub fn merge(&mut self, other: LootTableResult)
        requires
            loot_fits(old(self)@, other@),
        ensures
            final(self)@ == merged_loot(old(self)@, other@),
    {
        add_counts(&mut self.stackable_items, &other.stackable_items);
        add_counts(&mut self.currencies, &other.currencies);
        let ghost before = self.item@;
        let ghost mut done: Set<u128> = Set::empty();
        let entries = other.item.0.iter();
        proof {
            lemma_map_iteration(&other.item.0);
            assert(self.item@ =~= before.union_prefer_right(other.item@.restrict(done)));
        }
        for entry in it: entries
            invariant
                map_iteration(it.seq(), other.item.0@),
                done == keys_seen(it.seq(), it.index()),
                self.item@ == before.union_prefer_right(other.item@.restrict(done)),
                self.stackable_items@ == merged_counts(
                    old(self)@.stackable_items,
                    other@.stackable_items,
                ),
                self.currencies@ == merged_counts(old(self)@.currencies, other@.currencies),
                before == old(self)@.item,
        {
            let (k, v) = entry;
            proof {
                lemma_keys_seen_step(it.seq(), other.item.0@, it.index());
                assert(other.item.0@.contains_key(*it.seq()[it.index()].0));
            }
            let ghost prev = self.item.0@;
            let c = v.exact_copy();
            self.item.0.insert(*k, c);
            proof {
                assert(view_map(self.item.0@) =~= view_map(prev).insert(*k, v@));
                assert(other.item@[*k] == v@);
                assert(self.item@ =~= before.union_prefer_right(
                    other.item@.restrict(done.insert(*k)),
                ));
                done = done.insert(*k);
            }
        }
        assert(other.item@.restrict(done) =~= other.item@);
    }
}

/// Merging nothing into loot, or loot into nothing, gives that loot.
pub proof fn lemma_merge_empty(a: LootView)
    ensures
        merged_loot(a, empty_loot()) == a,
        merged_loot(empty_loot(), a) == a,
{
    assert(merged_counts(a.stackable_items, Map::empty()) =~= a.stackable_items);
    assert(merged_counts(Map::empty(), a.stackable_items) =~= a.stackable_items);
    assert(merged_counts(a.currencies, Map::empty()) =~= a.currencies);
    assert(merged_counts(Map::empty(), a.currencies) =~= a.currencies);
    assert(a.item.union_prefer_right(Map::empty()) =~= a.item);
    assert(Map::<u128, ItemView>::empty().union_prefer_right(a.item) =~= a.item);
}

/// The amounts of merged loot do not depend on the order of the merge.
pub proof fn lemma_merge_amounts_commute(a: LootView, b: LootView)
    ensures
        merged_loot(a, b).stackable_items == merged_loot(b, a).stackable_items,
        merged_loot(a, b).currencies == merged_loot(b, a).currencies,
{
    assert(merged_counts(a.stackable_items, b.stackable_items) =~= merged_counts(
        b.stackable_items,
        a.stackable_items,
    ));
    assert(merged_counts(a.currencies, b.currencies) =~= merged_counts(b.currencies, a.currencies));
}

/// Merging `b` then `c` into `a` gives what merging `c` into `b`, then the
/// result into `a`, gives, when no amount overflows.
pub proof fn lemma_merge_associative(a: LootView, b: LootView, c: LootView)
    requires
        loot_fits(a, b),
        loot_fits(merged_loot(a, b), c),
    ensures
        merged_loot(merged_loot(a, b), c) == merged_loot(a, merged_loot(b, c)),
{
    let ab = merged_loot(a, b);
    let bc = merged_loot(b, c);
    assert forall|k: u128| #[trigger] count_of(bc.stackable_items, k) == count_of(
        b.stackable_items,
        k,
    ) + count_of(c.stackable_items, k) by {
        assert(count_of(ab.stackable_items, k) == count_of(a.stackable_items, k) + count_of(
            b.stackable_items,
            k,
        ));
        assert(count_of(ab.stackable_items, k) + count_of(c.stackable_items, k) <= u64::MAX);
    }
    assert forall|k: u128| #[trigger] count_of(bc.currencies, k) == count_of(b.currencies, k)
        + count_of(c.currencies, k) by {
        assert(count_of(ab.currencies, k) == count_of(a.currencies, k) + count_of(b.currencies, k));
        assert(count_of(ab.currencies, k) + count_of(c.currencies, k) <= u64::MAX);
    }
    assert(merged_counts(ab.stackable_items, c.stackable_items) =~= merged_counts(
        a.stackable_items,
        bc.stackable_items,
    ));
    assert(merged_counts(ab.currencies, c.currencies) =~= merged_counts(a.currencies, bc.currencies));
    assert(a.item.union_prefer_right(b.item).union_prefer_right(c.item) =~= a.item.union_prefer_right(
        b.item.union_prefer_right(c.item),
    ));
}

/// `acc` plus the weight `w` of `key`.
pub open spec fn add_weight(w: spec_fn(u128) -> int) -> spec_fn(int, u128) -> int {
    |acc: int, key: u128| acc + w(key)
}

/// The sum of the weights `w` of `keys`.
pub open spec fn weight_total(keys: Set<u128>, w: spec_fn(u128) -> int) -> int {
    keys.fold(0int, add_weight(w))
}

proof fn lemma_add_weight_commutative(w: spec_fn(u128) -> int)
    ensures
        vstd::set::fold::is_fun_commutative(add_weight(w)),
{
    assert forall|a1: u128, a2: u128, b: int| #[trigger]
        add_weight(w)(add_weight(w)(b, a2), a1) == add_weight(w)(add_weight(w)(b, a1), a2) by {}
}

pub proof fn lemma_weight_total_empty(w: spec_fn(u128) -> int)
    ensures
        weight_total(Set::empty(), w) == 0,
{
    vstd::set::fold::lemma_fold_empty(0int, add_weight(w));
}

pub proof fn lemma_weight_total_insert(keys: Set<u128>, w: spec_fn(u128) -> int, a: u128)
    requires
        keys.finite(),
        !keys.contains(a),
    ensures
        weight_total(keys.insert(a), w) == weight_total(keys, w) + w(a),
{
    lemma_add_weight_commutative(w);
    vstd::set::fold::lemma_fold_insert(keys, 0int, add_weight(w), a);
}

pub proof fn lemma_weight_total_nonneg(keys: Set<u128>, w: spec_fn(u128) -> int)
    requires
        keys.finite(),
        forall|k: u128| keys.contains(k) ==> #[trigger] w(k) >= 0,
    ensures
        weight_total(keys, w) >= 0,
    decreases keys.len(),
{
    if keys.len() == 0 {
        assert(keys =~= Set::<u128>::empty());
        lemma_weight_total_empty(w);
    } else {
        let a = keys.choose();
        assert(keys.contains(a));
        let rest = keys.remove(a);
        lemma_weight_total_nonneg(rest, w);
        assert(rest.insert(a) =~= keys);
        lemma_weight_total_insert(rest, w, a);
    }
}

/// The amount of stackable item `k` in each loot table.
pub open spec fn stackable_weight(tables: Map<u128, LootView>, k: u128) -> spec_fn(u128) -> int {
    |key: u128| count_of(tables[key].stackable_items, k)
}

/// The amount of currency `k` in each loot table.
pub open spec fn currency_weight(tables: Map<u128, LootView>, k: u128) -> spec_fn(u128) -> int {
    |key: u128| count_of(tables[key].currencies, k)
}

/// The amount of stackable item `k` over all the loot tables.
pub open spec fn stackable_total(tables: Map<u128, LootView>, k: u128) -> int {
    weight_total(tables.dom(), stackable_weight(tables, k))
}

/// The amount of currency `k` over all the loot tables.
pub open spec fn currency_total(tables: Map<u128, LootView>, k: u128) -> int {
    weight_total(tables.dom(), currency_weight(tables, k))
}

/// The stackable item ids that some loot table of `keys` holds.
pub open spec fn stackable_ids(tables: Map<u128, LootView>, keys: Set<u128>) -> Set<u128> {
    Set::new(
        |i: u128|
            exists|key: u128|
                #![trigger tables[key].stackable_items.contains_key(i)]
                keys.contains(key) && tables[key].stackable_items.contains_key(i),
    )
}

/// The currency ids that some loot table of `keys` holds.
pub open spec fn currency_ids(tables: Map<u128, LootView>, keys: Set<u128>) -> Set<u128> {
    Set::new(
        |i: u128|
            exists|key: u128|
                #![trigger tables[key].currencies.contains_key(i)]
                keys.contains(key) && tables[key].currencies.contains_key(i),
    )
}

/// The item ids that some loot table of `keys` holds.
pub open spec fn item_ids(tables: Map<u128, LootView>, keys: Set<u128>) -> Set<u128> {
    Set::new(
        |i: u128|
            exists|key: u128|
                #![trigger tables[key].item.contains_key(i)]
                keys.contains(key) && tables[key].item.contains_key(i),
    )
}

/// Whether some loot table of `keys` holds the item `v` under id `i`.
pub open spec fn item_from_tables(
    tables: Map<u128, LootView>,
    keys: Set<u128>,
    i: u128,
    v: ItemView,
) -> bool {
    exists|key: u128|
        #![trigger tables[key].item[i]]
        keys.contains(key) && tables[key].item.contains_key(i) && tables[key].item[i] == v
}

/// Adds every loot table of `tables` to `result`, in the order in which the
/// map hands them out.
fn merge_tables(result: &mut LootTableResult, tables: &HashMap<u128, LootTableResult>)
    requires
        forall|k: u128|
            #[trigger] count_of(old(result)@.stackable_items, k) + stackable_total(
                view_map(tables@),
                k,
            ) <= u64::MAX,
        forall|k: u128|
            #[trigger] count_of(old(result)@.currencies, k) + currency_total(view_map(tables@), k)
                <= u64::MAX,
    ensures
        forall|k: u128|
            #[trigger] count_of(final(result)@.stackable_items, k) == count_of(
                old(result)@.stackable_items,
                k,
            ) + stackable_total(view_map(tables@), k),
        forall|k: u128|
            #[trigger] count_of(final(result)@.currencies, k) == count_of(old(result)@.currencies, k)
                + currency_total(view_map(tables@), k),
        final(result)@.stackable_items.dom() == old(result)@.stackable_items.dom() + stackable_ids(
            view_map(tables@),
            tables@.dom(),
        ),
        final(result)@.currencies.dom() == old(result)@.currencies.dom() + currency_ids(
            view_map(tables@),
            tables@.dom(),
        ),
        final(result)@.item.dom() == old(result)@.item.dom() + item_ids(
            view_map(tables@),
            tables@.dom(),
        ),
        forall|i: u128| #[trigger]
            final(result)@.item.contains_key(i) ==> item_from_tables(
                view_map(tables@),
                tables@.dom(),
                i,
                final(result)@.item[i],
            ) || (old(result)@.item.contains_key(i) && old(result)@.item[i]
                == final(result)@.item[i]),
{
    let ghost t = view_map(tables@);
    let ghost start = result@;
    let ghost mut done: Set<u128> = Set::empty();
    let entries = tables.iter();
    proof {
        lemma_map_iteration(tables);
        assert forall|k: u128| #[trigger] count_of(result@.stackable_items, k) == count_of(
            start.stackable_items,
            k,
        ) + weight_total(done, stackable_weight(t, k)) by {
            lemma_weight_total_empty(stackable_weight(t, k));
        }
        assert forall|k: u128| #[trigger] count_of(result@.currencies, k) == count_of(
            start.currencies,
            k,
        ) + weight_total(done, currency_weight(t, k)) by {
            lemma_weight_total_empty(currency_weight(t, k));
        }
        assert(stackable_ids(t, done) =~= Set::empty());
        assert(currency_ids(t, done) =~= Set::empty());
        assert(item_ids(t, done) =~= Set::empty());
        assert(tables@.dom().difference(done) =~= tables@.dom());
        assert(t.dom() =~= tables@.dom());
        assert forall|k: u128| #[trigger] weight_total(done, stackable_weight(t, k)) + weight_total(
            tables@.dom().difference(done),
            stackable_weight(t, k),
        ) == stackable_total(t, k) by {
            lemma_weight_total_empty(stackable_weight(t, k));
        }
        assert forall|k: u128| #[trigger] weight_total(done, currency_weight(t, k)) + weight_total(
            tables@.dom().difference(done),
            currency_weight(t, k),
        ) == currency_total(t, k) by {
            lemma_weight_total_empty(currency_weight(t, k));
        }
    }
    for entry in it: entries
        invariant
            map_iteration(it.seq(), tables@),
            done == keys_seen(it.seq(), it.index()),
            t == view_map(tables@),
            done.subset_of(tables@.dom()),
            tables@.dom().finite(),
            forall|k: u128|
                #[trigger] count_of(start.stackable_items, k) + stackable_total(t, k) <= u64::MAX,
            forall|k: u128|
                #[trigger] count_of(start.currencies, k) + currency_total(t, k) <= u64::MAX,
            forall|k: u128|
                #[trigger] count_of(result@.stackable_items, k) == count_of(
                    start.stackable_items,
                    k,
                ) + weight_total(done, stackable_weight(t, k)),
            forall|k: u128|
                #[trigger] count_of(result@.currencies, k) == count_of(start.currencies, k)
                    + weight_total(done, currency_weight(t, k)),
            forall|k: u128|
                #[trigger] weight_total(done, stackable_weight(t, k)) + weight_total(
                    tables@.dom().difference(done),
                    stackable_weight(t, k),
                ) == stackable_total(t, k),
            forall|k: u128|
                #[trigger] weight_total(done, currency_weight(t, k)) + weight_total(
                    tables@.dom().difference(done),
                    currency_weight(t, k),
                ) == currency_total(t, k),
            result@.stackable_items.dom() == start.stackable_items.dom() + stackable_ids(t, done),
            result@.currencies.dom() == start.currencies.dom() + currency_ids(t, done),
            result@.item.dom() == start.item.dom() + item_ids(t, done),
            forall|i: u128| #[trigger]
                result@.item.contains_key(i) ==> item_from_tables(t, done, i, result@.item[i]) || (
                start.item.contains_key(i) && start.item[i] == result@.item[i]),
    {
        let (key, table) = entry;
        let ghost a = *key;
        let ghost before = result@;
        let ghost rest = tables@.dom().difference(done);
        proof {
            lemma_keys_seen_step(it.seq(), tables@, it.index());
            assert(tables@.contains_key(*it.seq()[it.index()].0));
            assert(t[a] == table@);
            assert(rest.remove(a).insert(a) =~= rest);
            assert(tables@.dom().difference(done.insert(a)) =~= rest.remove(a));
            assert forall|k: u128|
                count_of(before.stackable_items, k) + count_of(table@.stackable_items, k)
                    <= u64::MAX by {
                let w = stackable_weight(t, k);
                lemma_weight_total_insert(rest.remove(a), w, a);
                lemma_weight_total_nonneg(rest.remove(a), w);
                lemma_weight_total_nonneg(tables@.dom(), w);
                assert(count_of(start.stackable_items, k) + stackable_total(t, k) <= u64::MAX);
            }
            assert forall|k: u128|
                count_of(before.currencies, k) + count_of(table@.currencies, k) <= u64::MAX by {
                let w = currency_weight(t, k);
                lemma_weight_total_insert(rest.remove(a), w, a);
                lemma_weight_total_nonneg(rest.remove(a), w);
                assert(count_of(start.currencies, k) + currency_total(t, k) <= u64::MAX);
            }
        }
        result.merge(table.exact_copy());
        proof {
            assert forall|k: u128| #[trigger]
                count_of(result@.stackable_items, k) == count_of(start.stackable_items, k)
                    + weight_total(done.insert(a), stackable_weight(t, k)) by {
                lemma_weight_total_insert(done, stackable_weight(t, k), a);
                assert(count_of(before.stackable_items, k) + count_of(table@.stackable_items, k)
                    <= u64::MAX);
                assert(stackable_weight(t, k)(a) == count_of(table@.stackable_items, k));
                assert(count_of(result@.stackable_items, k) == count_of(before.stackable_items, k)
                    + count_of(table@.stackable_items, k));
            }
            assert forall|k: u128| #[trigger]
                count_of(result@.currencies, k) == count_of(start.currencies, k) + weight_total(
                    done.insert(a),
                    currency_weight(t, k),
                ) by {
                lemma_weight_total_insert(done, currency_weight(t, k), a);
                assert(count_of(before.currencies, k) + count_of(table@.currencies, k)
                    <= u64::MAX);
                assert(currency_weight(t, k)(a) == count_of(table@.currencies, k));
                assert(count_of(result@.currencies, k) == count_of(before.currencies, k)
                    + count_of(table@.currencies, k));
            }
            assert forall|k: u128| #[trigger]
                weight_total(done.insert(a), stackable_weight(t, k)) + weight_total(
                    rest.remove(a),
                    stackable_weight(t, k),
                ) == stackable_total(t, k) by {
                lemma_weight_total_insert(done, stackable_weight(t, k), a);
                lemma_weight_total_insert(rest.remove(a), stackable_weight(t, k), a);
            }
            assert forall|k: u128| #[trigger]
                weight_total(done.insert(a), currency_weight(t, k)) + weight_total(
                    rest.remove(a),
                    currency_weight(t, k),
                ) == currency_total(t, k) by {
                lemma_weight_total_insert(done, currency_weight(t, k), a);
                lemma_weight_total_insert(rest.remove(a), currency_weight(t, k), a);
            }
            assert(result@.stackable_items.dom() =~= start.stackable_items.dom() + stackable_ids(
                t,
                done.insert(a),
            ));
            assert(result@.currencies.dom() =~= start.currencies.dom() + currency_ids(
                t,
                done.insert(a),
            ));
            assert(result@.item.dom() =~= start.item.dom() + item_ids(t, done.insert(a)));
            assert forall|i: u128| #[trigger]
                result@.item.contains_key(i) implies item_from_tables(
                t,
                done.insert(a),
                i,
                result@.item[i],
            ) || (start.item.contains_key(i) && start.item[i] == result@.item[i]) by {
                if table@.item.contains_key(i) {
                    assert(t[a].item[i] == result@.item[i]);
                } else {
                    assert(before.item.contains_key(i));
                    if item_from_tables(t, done, i, before.item[i]) {
                        let key0 = choose|key0: u128|
                            #![trigger t[key0].item[i]]
                            done.contains(key0) && t[key0].item.contains_key(i) && t[key0].item[i]
                                == before.item[i];
                        assert(t[key0].item[i] == result@.item[i]);
                    }
                }
            }
            done = done.insert(a);
        }
    }
    assert(done =~= tables@.dom());
}

/// What one enemy gave: its level, the experience, and its loot.
#[derive(Debug)]
pub struct DungeonEnemyResult {
    pub enemy_level: i64,
    pub given_xp: u64,
    pub spawn_group_loot: HashMap<u128, LootTableResult>,
    pub loot_table_loot: HashMap<u128, LootTableResult>,
}

impl DungeonEnemyResult {
    /// All the loot of this enemy in one table: the amounts of every
    /// stackable item and currency summed over all its loot tables, and
    /// every item of its loot tables (where two tables hold an item under
    /// the same id, the one merged last, in the maps' iteration order, is
    /// kept).
    pub fn merged_loot_table(&self) -> (r: LootTableResult)
        requires
            forall|k: u128|
                #[trigger] stackable_total(view_map(self.spawn_group_loot@), k) + stackable_total(
                    view_map(self.loot_table_loot@),
                    k,
                ) <= u64::MAX,
            forall|k: u128|
                #[trigger] currency_total(view_map(self.spawn_group_loot@), k) + currency_total(
                    view_map(self.loot_table_loot@),
                    k,
                ) <= u64::MAX,
        ensures
            forall|k: u128|
                #[trigger] count_of(r@.stackable_items, k) == stackable_total(
                    view_map(self.spawn_group_loot@),
                    k,
                ) + stackable_total(view_map(self.loot_table_loot@), k),
            forall|k: u128|
                #[trigger] count_of(r@.currencies, k) == currency_total(
                    view_map(self.spawn_group_loot@),
                    k,
                ) + currency_total(view_map(self.loot_table_loot@), k),
            r@.stackable_items.dom() == stackable_ids(
                view_map(self.spawn_group_loot@),
                self.spawn_group_loot@.dom(),
            ) + stackable_ids(view_map(self.loot_table_loot@), self.loot_table_loot@.dom()),
            r@.currencies.dom() == currency_ids(
                view_map(self.spawn_group_loot@),
                self.spawn_group_loot@.dom(),
            ) + currency_ids(view_map(self.loot_table_loot@), self.loot_table_loot@.dom()),
            r@.item.dom() == item_ids(view_map(self.spawn_group_loot@), self.spawn_group_loot@.dom())
                + item_ids(view_map(self.loot_table_loot@), self.loot_table_loot@.dom()),
            forall|i: u128| #[trigger]
                r@.item.contains_key(i) ==> item_from_tables(
                    view_map(self.spawn_group_loot@),
                    self.spawn_group_loot@.dom(),
                    i,
                    r@.item[i],
                ) || item_from_tables(
                    view_map(self.loot_table_loot@),
                    self.loot_table_loot@.dom(),
                    i,
                    r@.item[i],
                ),
    {
        let mut result = LootTableResult::default();
        let ghost spawn = view_map(self.spawn_group_loot@);
        let ghost loot = view_map(self.loot_table_loot@);
        proof {
            assert(loot.dom() =~= self.loot_table_loot@.dom());
            assert forall|k: u128| #[trigger]
                count_of(result@.stackable_items, k) + stackable_total(spawn, k) <= u64::MAX by {
                lemma_weight_total_nonneg(loot.dom(), stackable_weight(loot, k));
                assert(count_of(result@.stackable_items, k) == 0);
                assert(stackable_total(spawn, k) + stackable_total(loot, k) <= u64::MAX);
            }
            assert forall|k: u128| #[trigger]
                count_of(result@.currencies, k) + currency_total(spawn, k) <= u64::MAX by {
                lemma_weight_total_nonneg(loot.dom(), currency_weight(loot, k));
                assert(count_of(result@.currencies, k) == 0);
                assert(currency_total(spawn, k) + currency_total(loot, k) <= u64::MAX);
            }
        }
        merge_tables(&mut result, &self.spawn_group_loot);
        merge_tables(&mut result, &self.loot_table_loot);
        assert(result@.stackable_items.dom() =~= stackable_ids(spawn, self.spawn_group_loot@.dom()) + stackable_ids(loot, self.loot_table_loot@.dom()));
        assert(result@.currencies.dom() =~= currency_ids(spawn, self.spawn_group_loot@.dom()) + currency_ids(loot, self.loot_table_loot@.dom()));
        assert(result@.item.dom() =~= item_ids(spawn, self.spawn_group_loot@.dom()) + item_ids(loot, self.loot_table_loot@.dom()));
        result
    }
}

/// An enemy result, as values.
pub struct EnemyResultView {
    pub enemy_level: i64,
    pub given_xp: u64,
    pub spawn_group_loot: Map<u128, LootView>,
    pub loot_table_loot: Map<u128, LootView>,
}

impl View for DungeonEnemyResult {
    type V = EnemyResultView;

    open spec fn view(&self) -> EnemyResultView {
        EnemyResultView {
            enemy_level: self.enemy_level,
            given_xp: self.given_xp,
            spawn_group_loot: view_map(self.spawn_group_loot@),
            loot_table_loot: view_map(self.loot_table_loot@),
        }
    }
}

/// What one item spawn gave.
#[derive(Debug)]
pub struct DungeonItemResult {
    pub loot_table_loot: HashMap<u128, LootTableResult>,
}

/// What one chest spawn is.
#[derive(Clone, Copy, Debug)]
pub struct ChestGeneratedData {
    pub tier: u64,
}

/// The generated content of a quest's dungeon. Enemies are listed by
/// spawner id, then by spawner, then by enemy.
#[derive(Debug)]
pub struct DungeonGeneratedData {
    pub enemy_generated_data: HashMap<u128, Vec<Vec<DungeonEnemyResult>>>,
    pub item_generated_data: HashMap<u128, Vec<DungeonItemResult>>,
    pub chest_generated_data: HashMap<u128, Vec<ChestGeneratedData>>,
    pub algorithm_version: u64,
    pub version: u64,
}

/// Whether the generated data lists an enemy at `index`.
pub open spec fn has_enemy(data: &DungeonGeneratedData, index: EnemyIndex) -> bool {
    &&& data.enemy_generated_data@.contains_key(index.spawner_uuid)
    &&& index.spawner_index < data.enemy_generated_data@[index.spawner_uuid]@.len()
    &&& index.enemy_index < data.enemy_generated_data@[index.spawner_uuid]@[index.spawner_index as int]@.len()
}

/// The enemy that the generated data lists at `index`.
pub open spec fn enemy_at(data: &DungeonGeneratedData, index: EnemyIndex) -> DungeonEnemyResult {
    data.enemy_generated_data@[index.spawner_uuid]@[index.spawner_index as int]@[index.enemy_index as int]
}

impl DungeonGeneratedData {
    /// The enemy at `index`, if the data lists one there.
    pub fn get_enemy(&self, index: &EnemyIndex) -> (r: Option<&DungeonEnemyResult>)
        ensures
            match r {
                Some(e) => has_enemy(self, *index) && *e == enemy_at(self, *index),
                None => !has_enemy(self, *index),
            },
    {
        match self.enemy_generated_data.get(&index.spawner_uuid) {
            None => None,
            Some(spawner_data) => {
                if index.spawner_index < spawner_data.len() {
                    let enemies = &spawner_data[index.spawner_index];
                    if index.enemy_index < enemies.len() {
                        Some(&enemies[index.enemy_index])
                    } else {
                        None
                    }
                } else {
                    None
                }
            },
        }
    }
}

/// Generated dungeon data together with the quest it belongs to.
#[derive(Debug)]
pub struct DungeonGeneratedDataWithId {
    pub quest_id: u128,
    pub inner: DungeonGeneratedData,
}

/// The state of one enemy of a running dungeon.
#[derive(Debug)]
pub struct EnemyStatus {
    pub spawn_group_id: u128,
    pub xp_reward: u64,
    pub killed: bool,
    pub time: u64,
    pub loot: LootTableResult,
}

/// The state of a running dungeon.
#[derive(Debug)]
pub struct DungeonStatus {
    pub dungeon_settings_ids: Vec<u128>,
    pub revive_count: u64,
    pub level: u64,
    pub seed: i64,
    pub current_state: B64EncodedData,
    pub algorithm_version: i64,
    pub version: i64,
    pub enemy_status: HashMap<EnemyIndex, EnemyStatus>,
}

#[derive(Debug)]
pub struct DungeonState {
    pub dungeon_status: DungeonStatus,
}

/// Where an enemy stands in generated dungeon data: its spawner's id, the
/// spawner, and the enemy of that spawner.
#[derive(Clone, Copy, Debug, PartialEq, Eq, Structural, Hash, PartialOrd, Ord)]
pub struct EnemyIndex {
    pub spawner_uuid: u128,
    pub spawner_index: usize,
    pub enemy_index: usize,
}

/// Why a text is not an enemy index.
#[derive(Clone, Copy, Debug, PartialEq, Eq, Structural)]
pub enum EnemyIndexParseError {
    /// The text has fewer than two hyphens.
    InvalidFormat,
    /// The text after the last hyphen is not a `usize`.
    InvalidEnemyIndex,
    /// The text between the last two hyphens is not a `usize`.
    InvalidSpawnerIndex,
    /// The text before the last two hyphens is not a UUID.
    InvalidSpawnerUuid,
}

/// The text form of an enemy index: `uuid-spawner-enemy`.
pub open spec fn enemy_index_text(e: EnemyIndex) -> Seq<char> {
    hyphenated_text(e.spawner_uuid) + seq!['-'] + dec_text(e.spawner_index as nat) + seq!['-']
        + dec_text(e.enemy_index as nat)
}

/// The position of the last hyphen of `s`, or -1 when it has none.
pub open spec fn last_dash(s: Seq<char>) -> int
    decreases s.len(),
{
    if s.len() == 0 {
        -1
    } else if s.last() == '-' {
        s.len() - 1
    } else {
        last_dash(s.drop_last())
    }
}

/// What `EnemyIndex::parse` gives for `s`: the text is cut at its last two
/// hyphens (as `rsplitn(3, '-')` cuts it); the last part is the enemy index,
/// the middle one the spawner index, the first one the spawner's UUID.
pub open spec fn spec_parse_enemy_index(s: Seq<char>) -> Result<EnemyIndex, EnemyIndexParseError> {
    let i = last_dash(s);
    let j = last_dash(s.take(i));
    if i < 0 || j < 0 {
        Err(EnemyIndexParseError::InvalidFormat)
    } else {
        match spec_parse_unsigned(s.subrange(i + 1, s.len() as int), usize::MAX as int) {
            None => Err(EnemyIndexParseError::InvalidEnemyIndex),
            Some(enemy) => match spec_parse_unsigned(s.subrange(j + 1, i), usize::MAX as int) {
                None => Err(EnemyIndexParseError::InvalidSpawnerIndex),
                Some(spawner) => match uuid_text_value(s.take(j)) {
                    None => Err(EnemyIndexParseError::InvalidSpawnerUuid),
                    Some(u) => Ok(
                        EnemyIndex {
                            spawner_uuid: u,
                            spawner_index: spawner as usize,
                            enemy_index: enemy as usize,
                        },
                    ),
                },
            },
        }
    }
}

proof fn lemma_last_dash_bounds(s: Seq<char>)
    ensures
        -1 <= last_dash(s) < s.len(),
        last_dash(s) >= 0 ==> s[last_dash(s)] == '-',
    decreases s.len(),
{
    if s.len() > 0 && s.last() != '-' {
        lemma_last_dash_bounds(s.drop_last());
    }
}

/// The last hyphen of `v[..end]`, searching from the end.
fn find_last_dash(v: &Vec<char>, end: usize) -> (r: Option<usize>)
    requires
        end <= v.len(),
    ensures
        match r {
            Some(i) => i as int == last_dash(v@.take(end as int)),
            None => last_dash(v@.take(end as int)) < 0,
        },
{
    let mut k: usize = end;
    while k > 0
        invariant
            k <= end <= v.len(),
            last_dash(v@.take(end as int)) == last_dash(v@.take(k as int)),
        decreases k,
    {
        assert(v@.take(k as int).last() == v@[k - 1]);
        if v[k - 1] == '-' {
            return Some(k - 1);
        }
        assert(v@.take(k as int).drop_last() =~= v@.take(k - 1));
        k = k - 1;
    }
    assert(v@.take(0) =~= Seq::<char>::empty());
    None
}

impl EnemyIndex {
    pub fn new(spawner_uuid: u128, spawner_index: usize, enemy_index: usize) -> (r: Self)
        ensures
            r.spawner_uuid == spawner_uuid,
            r.spawner_index == spawner_index,
            r.enemy_index == enemy_index,
    {
        Self { spawner_uuid, spawner_index, enemy_index }
    }

    /// The text form `uuid-spawner-enemy`, as the index is written and
    /// serialized.
    pub fn to_string(&self) -> (r: String)
        ensures
            r@ == enemy_index_text(*self),
    {
        let mut s = uuid_to_string(self.spawner_uuid);
        string_push(&mut s, '-');
        push_dec_text(&mut s, self.spawner_index as u64);
        string_push(&mut s, '-');
        push_dec_text(&mut s, self.enemy_index as u64);
        s
    }

    /// Reads an enemy index from its text form.
    #[verifier::spinoff_prover]
    #[verifier::rlimit(30)]
    pub fn parse(text: &str) -> (r: Result<EnemyIndex, EnemyIndexParseError>)
        ensures
            r == spec_parse_enemy_index(text@),
    {
        let v = crate::text::chars_of(text);
        let ghost s = text@;
        let max: u64 = usize::MAX as u64;
        assert(max as int == usize::MAX as int);
        let len = v.len();
        assert(v@.take(len as int) =~= s);
        let i = match find_last_dash(&v, len) {
            Some(i) => i,
            None => {
                return Err(EnemyIndexParseError::InvalidFormat);
            },
        };
        proof {
            lemma_last_dash_bounds(s);
        }
        let j = match find_last_dash(&v, i) {
            Some(j) => j,
            None => {
                assert(v@.take(i as int) =~= s.take(i as int));
                return Err(EnemyIndexParseError::InvalidFormat);
            },
        };
        proof {
            assert(v@.take(i as int) =~= s.take(i as int));
            lemma_last_dash_bounds(s.take(i as int));
        }
        let enemy = match parse_unsigned_range(&v, i + 1, len, max) {
            Some(e) => e,
            None => {
                return Err(EnemyIndexParseError::InvalidEnemyIndex);
            },
        };
        let spawner = match parse_unsigned_range(&v, j + 1, i, max) {
            Some(x) => x,
            None => {
                return Err(EnemyIndexParseError::InvalidSpawnerIndex);
            },
        };
        assert(v@.subrange(i + 1, len as int) =~= s.subrange(i + 1, s.len() as int));
        assert(v@.subrange(j + 1, i as int) =~= s.subrange(j + 1, i as int));
        assert(spawner <= usize::MAX && enemy <= usize::MAX);
        let uuid_text = crate::text::string_of_range(&v, 0, j);
        assert(s.take(j as int) =~= uuid_text@);
        assert(i as int == last_dash(s));
        assert(j as int == last_dash(s.take(i as int)));
        assert(spec_parse_unsigned(s.subrange(i + 1, s.len() as int), usize::MAX as int) == Some(
            enemy as int,
        ));
        assert(spec_parse_unsigned(s.subrange(j + 1, i as int), usize::MAX as int) == Some(
            spawner as int,
        ));
        match parse_uuid(&uuid_text) {
            Some(u) => Ok(EnemyIndex { spawner_uuid: u, spawner_index: spawner as usize, enemy_index: enemy as usize }),
            None => Err(EnemyIndexParseError::InvalidSpawnerUuid),
        }
    }
}

/// The position of the hyphen put between `a` and a run of digits `b` is
/// the last hyphen of the whole.
proof fn lemma_last_dash_before_digits(a: Seq<char>, b: Seq<char>)
    requires
        crate::text::all_dec_digits(b),
    ensures
        last_dash(a + seq!['-'] + b) == a.len(),
    decreases b.len(),
{
    let t = a + seq!['-'] + b;
    if b.len() == 0 {
        assert(t.last() == '-');
    } else {
        assert(is_dec_digit(b[b.len() - 1]));
        assert(t.last() == b.last());
        assert(t.drop_last() =~= a + seq!['-'] + b.drop_last());
        assert(crate::text::all_dec_digits(b.drop_last())) by {
            assert forall|k: int| 0 <= k < b.drop_last().len() implies #[trigger] is_dec_digit(
                b.drop_last()[k],
            ) by {
                assert(is_dec_digit(b[k]));
            }
        }
        lemma_last_dash_before_digits(a, b.drop_last());
    }
}

/// Reading back the text form of an enemy index gives the same index.
#[verifier::rlimit(40)]
pub proof fn lemma_enemy_index_text_roundtrip(e: EnemyIndex)
    ensures
        spec_parse_enemy_index(enemy_index_text(e)) == Ok::<EnemyIndex, EnemyIndexParseError>(e),
{
    let h = hyphenated_text(e.spawner_uuid);
    let d1 = dec_text(e.spawner_index as nat);
    let d2 = dec_text(e.enemy_index as nat);
    let s = enemy_index_text(e);
    crate::text::lemma_dec_text(e.spawner_index as nat);
    crate::text::lemma_dec_text(e.enemy_index as nat);
    let a = h + seq!['-'] + d1;
    assert(s =~= a + seq!['-'] + d2);
    lemma_last_dash_before_digits(a, d2);
    let i = a.len() as int;
    assert(s.take(i) =~= h + seq!['-'] + d1);
    lemma_last_dash_before_digits(h, d1);
    let j = h.len() as int;
    assert(s.subrange(i + 1, s.len() as int) =~= d2);
    assert(s.subrange(j + 1, i) =~= d1);
    assert(s.take(j) =~= h);
    lemma_parse_dec_text(e.enemy_index as nat, usize::MAX as int);
    lemma_parse_dec_text(e.spawner_index as nat, usize::MAX as int);
    lemma_uuid_text_roundtrip(e.spawner_uuid);
}

} // verus!
