//! Insertion-ordered key/flag storage, kept in an `indexmap::IndexMap`.
//!
//! Nothing in this file is proved. Each function makes one call into the map
//! and states, over the sequence of entries that the map holds, what the map's
//! documentation says of that call.

use indexmap::IndexMap;
use std::hash::RandomState;
use vstd::prelude::*;

verus! {

#[verifier::external_type_specification]
#[verifier::external_body]
#[verifier::reject_recursive_types(K)]
#[verifier::reject_recursive_types(V)]
#[verifier::reject_recursive_types(S)]
pub struct ExIndexMap<K, V, S>(IndexMap<K, V, S>);

/// The key/flag pairs that a map holds, in the map's own order.
pub uninterp spec fn entries(m: IndexMap<usize, bool, RandomState>) -> Seq<(usize, bool)>;

/// No pair of `s` carries `key`.
pub open spec fn lacks_key(s: Seq<(usize, bool)>, key: usize) -> bool {
    forall|j: int| 0 <= j < s.len() ==> (#[trigger] s[j]).0 != key
}

/// `IndexMap::new`: the map it returns holds no entry.
#[verifier::external_body]
pub(crate) fn flags_new() -> (m: IndexMap<usize, bool, RandomState>)
    ensures
        entries(m) == Seq::<(usize, bool)>::empty(),
{
    IndexMap::new()
}

/// `IndexMap::get_index_of`: the position of the entry that carries `key`,
/// or `None` where no entry carries it.
#[verifier::external_body]
pub(crate) fn flags_index_of(m: &IndexMap<usize, bool, RandomState>, key: usize) -> (r: Option<
    usize,
>)
    ensures
        match r {
            Some(i) => i < entries(*m).len() && entries(*m)[i as int].0 == key,
            None => lacks_key(entries(*m), key),
        },
{
    m.get_index_of(&key)
}

/// `IndexMap::get_index`: the entry at position `index`, or `None` where the
/// position lies past the last entry.
#[verifier::external_body]
pub(crate) fn flags_entry_at(m: &IndexMap<usize, bool, RandomState>, index: usize) -> (r: Option<
    (usize, bool),
>)
    ensures
        index < entries(*m).len() ==> r == Some(entries(*m)[index as int]),
        index >= entries(*m).len() ==> r.is_none(),
{
    match m.get_index(index) {
        Some((k, v)) => Some((*k, *v)),
        None => None,
    }
}

/// `IndexMap::insert`: where an entry carries `key`, it keeps its place, takes
/// `value`, and its earlier flag is returned; otherwise the new entry goes
/// last and `None` is returned.
#[verifier::external_body]
pub(crate) fn flags_insert(m: &mut IndexMap<usize, bool, RandomState>, key: usize, value: bool) -> (r:
    Option<bool>)
    ensures
        match r {
            Some(earlier) => exists|i: int|
                0 <= i < entries(*old(m)).len() && #[trigger] entries(*old(m))[i] == (key, earlier)
                    && entries(*final(m)) == entries(*old(m)).update(i, (key, value)),
            None => lacks_key(entries(*old(m)), key) && entries(*final(m)) == entries(
                *old(m),
            ).push((key, value)),
        },
{
    m.insert(key, value)
}

/// `IndexMap::shift_remove`: where an entry carries `key`, it leaves, the
/// entries behind it move up by one in their order, and its flag is returned;
/// otherwise nothing changes and `None` is returned.
#[verifier::external_body]
pub(crate) fn flags_shift_remove(m: &mut IndexMap<usize, bool, RandomState>, key: usize) -> (r:
    Option<bool>)
    ensures
        match r {
            Some(flag) => exists|i: int|
                0 <= i < entries(*old(m)).len() && #[trigger] entries(*old(m))[i] == (key, flag)
                    && entries(*final(m)) == entries(*old(m)).remove(i),
            None => lacks_key(entries(*old(m)), key) && entries(*final(m)) == entries(*old(m)),
        },
{
    m.shift_remove(&key)
}

/// `IndexMap::clear`: no entry stays.
#[verifier::external_body]
pub(crate) fn flags_clear(m: &mut IndexMap<usize, bool, RandomState>)
    ensures
        entries(*final(m)) == Seq::<(usize, bool)>::empty(),
{
    m.clear()
}

/// `IndexMut<usize>` of `IndexMap`: the entry at position `index` takes
/// `value`; its key and every other entry stay. The map panics on a position
/// past its last entry, which `requires` leaves out.
#[verifier::external_body]
pub(crate) fn flags_set_at(m: &mut IndexMap<usize, bool, RandomState>, index: usize, value: bool)
    requires
        index < entries(*old(m)).len(),
    ensures
        entries(*final(m)) == entries(*old(m)).update(
            index as int,
            (entries(*old(m))[index as int].0, value),
        ),
{
    m[index] = value;
}

} // verus!
