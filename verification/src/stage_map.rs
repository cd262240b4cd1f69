//! The ordered map from stage names to channel handles that a dispatcher
//! routes over, kept in an `indexmap::IndexMap`.

use vstd::prelude::*;
use indexmap::IndexMap;

verus! {

/// Declares `indexmap::IndexMap` to Verus as an opaque type.
#[verifier::external_type_specification]
#[verifier::external_body]
#[verifier::reject_recursive_types(K)]
#[verifier::reject_recursive_types(V)]
#[verifier::reject_recursive_types(S)]
pub struct ExIndexMap<K, V, S>(IndexMap<K, V, S>);

/// What a stage map holds: its entries in the map's order, each a stage name
/// and the handle of the channel that serves the stage.
pub uninterp spec fn stage_entries(m: IndexMap<String, u64>) -> Seq<(Seq<char>, u64)>;

/// No two entries share a name.
pub open spec fn names_distinct(s: Seq<(Seq<char>, u64)>) -> bool {
    forall|i: int, j: int| 0 <= i < s.len() && 0 <= j < s.len() && i != j ==> s[i].0 != s[j].0
}

/// `IndexMap::len`: the number of entries.
#[verifier::external_body]
pub fn stage_map_len(m: &IndexMap<String, u64>) -> (n: usize)
    ensures
        n == stage_entries(*m).len(),
{
    m.len()
}

/// The map holds an entry named `name`.
pub open spec fn has_name(s: Seq<(Seq<char>, u64)>, name: Seq<char>) -> bool {
    exists|i: int| 0 <= i < s.len() && s[i].0 == name
}

/// The position of the entry named `name` (meaningful where `has_name` holds).
pub open spec fn index_of_name(s: Seq<(Seq<char>, u64)>, name: Seq<char>) -> int {
    choose|i: int| 0 <= i < s.len() && s[i].0 == name
}

/// `s` after removing position `i` by moving the last element into its place.
pub open spec fn swap_removed<A>(s: Seq<A>, i: int) -> Seq<A> {
    if i == s.len() - 1 {
        s.drop_last()
    } else {
        s.drop_last().update(i, s.last())
    }
}

/// The entries after removing the one named `name`, if there is one.
pub open spec fn without_name(s: Seq<(Seq<char>, u64)>, name: Seq<char>) -> Seq<(Seq<char>, u64)> {
    if has_name(s, name) {
        swap_removed(s, index_of_name(s, name))
    } else {
        s
    }
}

/// A borrowed key and value that hold the given entry.
pub open spec fn refers_to(kv: (&String, &u64), entry: (Seq<char>, u64)) -> bool {
    kv.0@ == entry.0 && *kv.1 == entry.1
}

/// `IndexMap::get_index`: the entry at a position, or `None` past the end.
#[verifier::external_body]
pub fn stage_map_get_index<'a>(m: &'a IndexMap<String, u64>, index: usize) -> (r: Option<(&'a String, &'a u64)>)
    ensures
        index < stage_entries(*m).len() ==> r is Some && refers_to(r->0, stage_entries(*m)[index as int]),
        index >= stage_entries(*m).len() ==> r is None,
{
    m.get_index(index)
}

/// `IndexMap::swap_remove` (the method that `IndexMap::remove` forwards to):
/// removes the entry with the given key, moving the last entry into its
/// position, and returns its value; a map without that key is left as it is.
#[verifier::external_body]
pub fn stage_map_swap_remove(m: &mut IndexMap<String, u64>, name: &String) -> (r: Option<u64>)
    ensures
        stage_entries(*final(m)) == without_name(stage_entries(*old(m)), name@),
        r == (if has_name(stage_entries(*old(m)), name@) {
            Some(stage_entries(*old(m))[index_of_name(stage_entries(*old(m)), name@)].1)
        } else {
            None::<u64>
        }),
{
    m.swap_remove(name)
}

/// Removing a position by swapping keeps the remaining names distinct.
pub proof fn lemma_swap_removed_distinct(s: Seq<(Seq<char>, u64)>, i: int)
    requires
        names_distinct(s),
        0 <= i < s.len(),
    ensures
        names_distinct(swap_removed(s, i)),
        swap_removed(s, i).len() == s.len() - 1,
{
    let r = swap_removed(s, i);
    assert forall|a: int, b: int| 0 <= a < r.len() && 0 <= b < r.len() && a != b implies r[a].0 != r[b].0 by {
        let oa = if a == i { s.len() - 1 } else { a };
        let ob = if b == i { s.len() - 1 } else { b };
        assert(r[a] == s[oa]);
        assert(r[b] == s[ob]);
    }
}

/// A name is present after a swap removal exactly where it was present
/// before and is not the removed one.
pub proof fn lemma_without_name_has(s: Seq<(Seq<char>, u64)>, gone: Seq<char>, name: Seq<char>)
    requires
        names_distinct(s),
    ensures
        has_name(without_name(s, gone), name) <==> (has_name(s, name) && name != gone),
        names_distinct(without_name(s, gone)),
        without_name(s, gone).len() == (if has_name(s, gone) { s.len() - 1 } else { s.len() as int }),
{
    if has_name(s, gone) {
        let i = index_of_name(s, gone);
        lemma_swap_removed_distinct(s, i);
        let r = swap_removed(s, i);
        if has_name(s, name) && name != gone {
            let j = index_of_name(s, name);
            let rj = if j == s.len() - 1 { i } else { j };
            assert(r[rj] == s[j]);
        }
        if has_name(r, name) {
            let k = choose|k: int| 0 <= k < r.len() && r[k].0 == name;
            let ok = if k == i { s.len() - 1 } else { k };
            assert(r[k] == s[ok]);
            assert(ok != i);
        }
    }
}

} // verus!
