//! Game-server logic for the Blades service: inventories, loot, quests,
//! dungeons, sessions and account records, with their contracts.
//!
//! Identifiers that the service exchanges as UUIDs are held as `u128`
//! values (the big-endian reading of the sixteen bytes); `text` states their
//! text forms. Floating-point quantities of the game records are carried as
//! the IEEE-754 bit patterns of the `f64` values (`f64::to_bits`).
#![allow(unused_imports)]

use std::collections::{HashMap, HashSet};
use vstd::std_specs::iter::IteratorSpec;
use vstd::prelude::*;

pub mod text;
pub mod user_data;
pub mod quest_gen;
pub mod saved_data;
pub mod database;
pub mod session;
pub mod models;
pub mod dungeon_entry;
pub mod migration;
pub mod character;
pub mod login;
pub mod quest_log;
pub mod character_storage;
pub mod daily_reward;
pub mod character_data;
pub mod arena;
pub mod matchmaking;

verus! {

broadcast use vstd::std_specs::hash::group_hash_axioms;

/// A copy of a value with the same view.
pub trait ExactCopy: View + Sized {
    fn exact_copy(&self) -> (r: Self)
        ensures
            r@ == self@,
    ;
}

/// The views of the values of `m`.
pub open spec fn view_map<V: View>(m: Map<u128, V>) -> Map<u128, V::V> {
    m.map_values(|v: V| v@)
}

impl ExactCopy for u64 {
    fn exact_copy(&self) -> (r: Self) {
        *self
    }
}

/// The ids among the first `n` of an iteration over id references.
pub open spec fn ids_seen(s: Seq<&u128>, n: int) -> Set<u128> {
    s.unref().take(n).to_set()
}

/// The keys among the first `n` entries of an iteration over a map.
pub open spec fn keys_seen<V>(s: Seq<(&u128, &V)>, n: int) -> Set<u128> {
    s.unref().take(n).map_values(|p: (u128, V)| p.0).to_set()
}

/// An iteration over a set of ids yields every id of the set.
pub proof fn lemma_set_iteration(m: &HashSet<u128>)
    ensures
        ids_seen(m.iter().remaining(), m.iter().remaining().len() as int) == m@,
{
    assert(m.iter().remaining().unref().take(m.iter().remaining().len() as int)
        =~= m.iter().remaining().unref());
}

/// Stepping over one more id of an iteration adds it to the ids seen.
pub proof fn lemma_ids_seen_step(s: Seq<&u128>, i: int)
    requires
        0 <= i < s.len(),
    ensures
        ids_seen(s, i + 1) == ids_seen(s, i).insert(*s[i]),
{
    assert(s.unref().take(i + 1) =~= s.unref().take(i).push(*s[i]));
    s.unref().take(i).lemma_push_to_set_commute(*s[i]);
}

/// What an iteration over a map of `m` yields, as `HashMap::iter` gives
/// it: each entry of `m` once, every key once.
pub open spec fn map_iteration<V>(s: Seq<(&u128, &V)>, m: Map<u128, V>) -> bool {
    &&& keys_seen(s, s.len() as int) == m.dom()
    &&& forall|i: int|
        0 <= i < s.len() ==> #[trigger] m.contains_key(*s[i].0) && m[*s[i].0] == *s[i].1
    &&& forall|i: int, j: int| 0 <= i < j < s.len() ==> *(#[trigger] s[i]).0 != *(#[trigger] s[j]).0
}

/// An iteration that yields entries of `m` only, and each entry of `m`,
/// sees exactly the keys of `m`.
pub proof fn lemma_iteration_keys<V>(s: Seq<(&u128, &V)>, m: Map<u128, V>)
    requires
        forall|i: int| 0 <= i < s.len() ==> #[trigger] m.contains_key(*s[i].0),
        forall|k: u128| #[trigger] m.contains_key(k) ==> s.contains((&k, &m[k])),
    ensures
        keys_seen(s, s.len() as int) == m.dom(),
{
    let f = |p: (u128, V)| p.0;
    assert(s.unref().take(s.len() as int) =~= s.unref());
    assert forall|k: u128| m.dom().contains(k) implies #[trigger] s.unref().map_values(
        f,
    ).to_set().contains(k) by {
        assert(s.contains((&k, &m[k])));
        let i = choose|i: int| 0 <= i < s.len() && s[i] == (&k, &m[k]);
        assert(s.unref().map_values(f)[i] == k);
    }
    assert forall|k: u128| #[trigger] s.unref().map_values(f).to_set().contains(k) implies m.dom().contains(k) by {
        let i = choose|i: int| 0 <= i < s.len() && s.unref().map_values(f)[i] == k;
        assert(m.contains_key(*s[i].0));
    }
    assert(s.unref().map_values(f).to_set() =~= m.dom());
}

pub proof fn lemma_map_iteration<V>(m: &HashMap<u128, V>)
    requires
        m.iter().remaining().no_duplicates(),
    ensures
        map_iteration(m.iter().remaining(), m@),
{
    let s = m.iter().remaining();
    assert forall|k: u128| #[trigger] m@.contains_key(k) implies s.contains((&k, &m@[k])) by {}
    lemma_iteration_keys(s, m@);
    assert forall|i: int, j: int| 0 <= i < j < s.len() implies *(#[trigger] s[i]).0 != *(
    #[trigger] s[j]).0 by {
        if *s[i].0 == *s[j].0 {
            assert(m@.contains_key(*s[i].0) && m@[*s[i].0] == *s[i].1);
            assert(m@.contains_key(*s[j].0) && m@[*s[j].0] == *s[j].1);
            assert(s[i] == s[j]);
        }
    }
}

/// Stepping over one more entry of an iteration adds its key to the keys
/// seen.
pub proof fn lemma_keys_seen_any_step<V>(s: Seq<(&u128, &V)>, i: int)
    requires
        0 <= i < s.len(),
    ensures
        keys_seen(s, i + 1) == keys_seen(s, i).insert(*s[i].0),
{
    let f = |p: (u128, V)| p.0;
    assert(s.unref().take(i + 1).map_values(f) =~= s.unref().take(i).map_values(f).push(*s[i].0));
    s.unref().take(i).map_values(f).lemma_push_to_set_commute(*s[i].0);
}

/// Stepping over one more entry of a map iteration adds its key to the keys
/// seen, and that key was not seen before.
pub proof fn lemma_keys_seen_step<V>(s: Seq<(&u128, &V)>, m: Map<u128, V>, i: int)
    requires
        map_iteration(s, m),
        0 <= i < s.len(),
    ensures
        keys_seen(s, i + 1) == keys_seen(s, i).insert(*s[i].0),
        !keys_seen(s, i).contains(*s[i].0),
{
    let f = |p: (u128, V)| p.0;
    assert(s.unref().take(i + 1).map_values(f) =~= s.unref().take(i).map_values(f).push(*s[i].0));
    s.unref().take(i).map_values(f).lemma_push_to_set_commute(*s[i].0);
    if keys_seen(s, i).contains(*s[i].0) {
        let j = choose|j: int| 0 <= j < i && s.unref().take(i).map_values(f)[j] == *s[i].0;
        assert(*s[j].0 == *s[i].0);
    }
}

/// A map with the keys of `m` and copies of its values.
pub fn copy_map<V: ExactCopy>(m: &HashMap<u128, V>) -> (r: HashMap<u128, V>)
    ensures
        view_map(r@) == view_map(m@),
{
    let mut out: HashMap<u128, V> = HashMap::new();
    let ghost mut done: Set<u128> = Set::empty();
    let entries = m.iter();
    proof {
        lemma_map_iteration(m);
    }
    for entry in it: entries
        invariant
            map_iteration(it.seq(), m@),
            done == keys_seen(it.seq(), it.index()),
            out@.dom() == done,
            forall|k: u128| #[trigger] out@.contains_key(k) ==> out@[k]@ == m@[k]@,
    {
        let (k, v) = entry;
        proof {
            lemma_keys_seen_step(it.seq(), m@, it.index());
            assert(m@.contains_key(*it.seq()[it.index()].0));
        }
        out.insert(*k, v.exact_copy());
        proof {
            done = done.insert(*k);
        }
    }
    assert(view_map(out@) =~= view_map(m@));
    out
}

/// A copy of a count map.
pub fn copy_counts(m: &HashMap<u128, u64>) -> (r: HashMap<u128, u64>)
    ensures
        r@ == m@,
{
    let r = copy_map(m);
    assert forall|k: u128| #[trigger] r@.contains_key(k) implies r@[k] == m@[k] by {
        assert(view_map(r@).contains_key(k));
        assert(view_map(r@)[k] == r@[k]@);
        assert(view_map(m@)[k] == m@[k]@);
        assert(view_map(r@)[k] == view_map(m@)[k]);
    }
    assert(r@.dom() =~= view_map(r@).dom());
    assert(m@.dom() =~= view_map(m@).dom());
    assert(r@ =~= m@);
    r
}

/// For each id of `watched`: its entry of `current` when `current` holds
/// it, else the id alone. Gives the entries found and the ids not found.
pub fn partition_watched<V: ExactCopy>(current: &HashMap<u128, V>, watched: &HashSet<u128>) -> (r: (
    HashMap<u128, V>,
    HashSet<u128>,
))
    ensures
        view_map(r.0@) == view_map(current@).restrict(watched@),
        r.1@ == watched@.difference(current@.dom()),
{
    let mut present: HashMap<u128, V> = HashMap::new();
    let mut removed: HashSet<u128> = HashSet::new();
    let ghost mut done: Set<u128> = Set::empty();
    proof {
        lemma_set_iteration(watched);
    }
    for id in it: watched.iter()
        invariant
            ids_seen(it.seq(), it.seq().len() as int) == watched@,
            done == ids_seen(it.seq(), it.index()),
            present@.dom() == current@.dom().intersect(done),
            forall|k: u128| #[trigger] present@.contains_key(k) ==> present@[k]@ == current@[k]@,
            removed@ == done.difference(current@.dom()),
    {
        let ghost before = ids_seen(it.seq(), it.index());
        proof {
            lemma_ids_seen_step(it.seq(), it.index());
        }
        match current.get(id) {
            Some(v) => {
                present.insert(*id, v.exact_copy());
            },
            None => {
                removed.insert(*id);
            },
        }
        assert(removed@ =~= before.insert(*id).difference(current@.dom()));
        proof {
            done = done.insert(*id);
        }
    }
    assert(view_map(present@) =~= view_map(current@).restrict(watched@));
    (present, removed)
}

} // verus!
