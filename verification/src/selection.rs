//! An insertion-ordered working set of selected entities.
//!
//! Each selected entity has an id, a detail payload and an expand flag. The
//! ids and flags live in an ordered map; the payloads live beside it in the
//! same order.

use crate::ordered::{
    entries, flags_clear, flags_entry_at, flags_index_of, flags_insert, flags_new, flags_set_at,
    flags_shift_remove,
};
use indexmap::IndexMap;
use std::hash::RandomState;
use vstd::prelude::*;

verus! {

/// One selected entity, as contracts see it.
pub struct Slot<D> {
    pub id: usize,
    pub detail: D,
    pub expanded: bool,
}

/// Some slot of `s` carries `id`.
pub open spec fn has_id<D>(s: Seq<Slot<D>>, id: usize) -> bool {
    exists|i: int| 0 <= i < s.len() && (#[trigger] s[i]).id == id
}

/// No two slots of `s` carry the same id.
pub open spec fn distinct_ids<D>(s: Seq<Slot<D>>) -> bool {
    forall|i: int, j: int|
        0 <= i < s.len() && 0 <= j < s.len() && i != j ==> (#[trigger] s[i]).id != (#[trigger] s[j]).id
}

/// A position at which `s` carries `id`; the only one where ids are distinct.
pub open spec fn position<D>(s: Seq<Slot<D>>, id: usize) -> int {
    choose|i: int| 0 <= i < s.len() && (#[trigger] s[i]).id == id
}

/// The ids of `s`, in order.
pub open spec fn ids_of<D>(s: Seq<Slot<D>>) -> Seq<usize> {
    Seq::new(s.len(), |i: int| s[i].id)
}

/// The detail payloads of `s`, in order.
pub open spec fn details_of<D>(s: Seq<Slot<D>>) -> Seq<D> {
    Seq::new(s.len(), |i: int| s[i].detail)
}

/// `s` with `slot` written over the slot of the same id, where there is one,
/// and appended otherwise.
pub open spec fn upserted<D>(s: Seq<Slot<D>>, slot: Slot<D>) -> Seq<Slot<D>> {
    if has_id(s, slot.id) {
        s.update(position(s, slot.id), slot)
    } else {
        s.push(slot)
    }
}

/// `s` without the slot that carries `id`; the slots behind it move up.
pub open spec fn removed<D>(s: Seq<Slot<D>>, id: usize) -> Seq<Slot<D>> {
    if has_id(s, id) {
        s.remove(position(s, id))
    } else {
        s
    }
}

/// `s` with every expand flag set to `value`.
pub open spec fn all_flagged<D>(s: Seq<Slot<D>>, value: bool) -> Seq<Slot<D>> {
    Seq::new(s.len(), |i: int| Slot { id: s[i].id, detail: s[i].detail, expanded: value })
}

/// `s` with the expand flag at position `i` set to `value`.
pub open spec fn flagged_at<D>(s: Seq<Slot<D>>, i: int, value: bool) -> Seq<Slot<D>> {
    s.update(i, Slot { id: s[i].id, detail: s[i].detail, expanded: value })
}

/// `s` with the detail payload at position `i` replaced by `detail`.
pub open spec fn detailed_at<D>(s: Seq<Slot<D>>, i: int, detail: D) -> Seq<Slot<D>> {
    s.update(i, Slot { id: s[i].id, detail: detail, expanded: s[i].expanded })
}

/// Every slot of `s` holds a detail that `lookup` can return for the slot's id
/// under `flag`.
pub open spec fn derived_from<D, F: Fn(usize, bool) -> D>(
    s: Seq<Slot<D>>,
    lookup: &F,
    flag: bool,
) -> bool {
    forall|i: int| 0 <= i < s.len() ==> lookup.ensures(((#[trigger] s[i]).id, flag), s[i].detail)
}

/// `lookup` accepts every id under either flag.
pub open spec fn total<D, F: Fn(usize, bool) -> D>(lookup: &F) -> bool {
    forall|id: usize, flag: bool| lookup.requires((id, flag))
}

/// `a` and `b` hold the same ids with the same expand flags, in the same order.
pub open spec fn same_frame<D>(a: Seq<Slot<D>>, b: Seq<Slot<D>>) -> bool {
    &&& a.len() == b.len()
    &&& forall|i: int|
        0 <= i < a.len() ==> (#[trigger] a[i]).id == b[i].id && a[i].expanded == b[i].expanded
}

/// No slot of `s` is unfolded.
pub open spec fn all_folded<D>(s: Seq<Slot<D>>) -> bool {
    forall|i: int| 0 <= i < s.len() ==> !(#[trigger] s[i]).expanded
}

/// `ids` without repetitions: each id stands where it occurs first.
pub open spec fn first_occurrences(ids: Seq<usize>) -> Seq<usize>
    decreases ids.len(),
{
    if ids.len() == 0 {
        Seq::empty()
    } else {
        let earlier = first_occurrences(ids.drop_last());
        if earlier.contains(ids.last()) {
            earlier
        } else {
            earlier.push(ids.last())
        }
    }
}

/// Writing a slot over its id, or appending it, does to the ids what taking
/// in one more id does to a list without repetitions.
pub proof fn lemma_upserted_ids<D>(s: Seq<Slot<D>>, slot: Slot<D>)
    requires
        distinct_ids(s),
    ensures
        has_id(s, slot.id) == ids_of(s).contains(slot.id),
        distinct_ids(upserted(s, slot)),
        upserted(s, slot).len() == if has_id(s, slot.id) {
            s.len()
        } else {
            s.len() + 1
        },
        ids_of(upserted(s, slot)) == if ids_of(s).contains(slot.id) {
            ids_of(s)
        } else {
            ids_of(s).push(slot.id)
        },
{
    if has_id(s, slot.id) {
        let p = position(s, slot.id);
        assert(0 <= p < s.len() && s[p].id == slot.id);
        assert(ids_of(s)[p] == slot.id);
        assert(ids_of(upserted(s, slot)) =~= ids_of(s));
    } else {
        if ids_of(s).contains(slot.id) {
            let i = choose|i: int| 0 <= i < ids_of(s).len() && ids_of(s)[i] == slot.id;
            assert(s[i].id == slot.id);
        }
        assert(ids_of(upserted(s, slot)) =~= ids_of(s).push(slot.id));
    }
}

/// Where ids are distinct, a position that carries `id` is `position(s, id)`.
pub proof fn lemma_position_unique<D>(s: Seq<Slot<D>>, id: usize, i: int)
    requires
        distinct_ids(s),
        0 <= i < s.len(),
        s[i].id == id,
    ensures
        has_id(s, id),
        position(s, id) == i,
{
    let p = position(s, id);
    assert(0 <= p < s.len() && s[p].id == id);
}

/// An ordered set of selected entities with their payloads and expand flags.
pub struct Selection<D> {
    flags: IndexMap<usize, bool, RandomState>,
    details: Vec<D>,
}

impl<D> View for Selection<D> {
    type V = Seq<Slot<D>>;

    closed spec fn view(&self) -> Seq<Slot<D>> {
        Seq::new(
            self.details@.len(),
            |i: int|
                Slot {
                    id: entries(self.flags)[i].0,
                    detail: self.details@[i],
                    expanded: entries(self.flags)[i].1,
                },
        )
    }
}

impl<D> Selection<D> {
    /// Flags and payloads line up.
    pub closed spec fn aligned(&self) -> bool {
        entries(self.flags).len() == self.details@.len()
    }

    /// The set is well formed: flags and payloads line up and no id occurs twice.
    pub open spec fn wf(&self) -> bool {
        self.aligned() && distinct_ids(self@)
    }

    /// The empty set.
    pub fn new() -> (s: Selection<D>)
        ensures
            s.wf(),
            s@ == Seq::<Slot<D>>::empty(),
    {
        let s = Selection { flags: flags_new(), details: Vec::new() };
        assert(s@ =~= Seq::<Slot<D>>::empty());
        s
    }

    /// The number of selected entities.
    pub fn len(&self) -> (n: usize)
        requires
            self.wf(),
        ensures
            n == self@.len(),
    {
        self.details.len()
    }

    /// The position of `id`, or `None` where it is not selected.
    pub fn index_of(&self, id: usize) -> (r: Option<usize>)
        requires
            self.wf(),
        ensures
            r.is_some() == has_id(self@, id),
            r matches Some(i) ==> i < self@.len() && self@[i as int].id == id && i == position(
                self@,
                id,
            ),
    {
        let r = flags_index_of(&self.flags, id);
        proof {
            match r {
                Some(i) => {
                    assert(self@[i as int].id == id);
                    lemma_position_unique(self@, id, i as int);
                },
                None => {
                    assert forall|j: int| 0 <= j < self@.len() implies (#[trigger] self@[j]).id
                        != id by {
                        assert(entries(self.flags)[j].0 != id);
                    }
                },
            }
        }
        r
    }

    /// Whether `id` is selected.
    pub fn contains(&self, id: usize) -> (r: bool)
        requires
            self.wf(),
        ensures
            r == has_id(self@, id),
    {
        self.index_of(id).is_some()
    }

    /// The id at position `i`.
    pub fn id_at(&self, i: usize) -> (id: usize)
        requires
            self.wf(),
            i < self@.len(),
        ensures
            id == self@[i as int].id,
    {
        match flags_entry_at(&self.flags, i) {
            Some((id, _)) => id,
            None => 0,
        }
    }

    /// The expand flag at position `i`.
    pub fn expanded_at(&self, i: usize) -> (flag: bool)
        requires
            self.wf(),
            i < self@.len(),
        ensures
            flag == self@[i as int].expanded,
    {
        match flags_entry_at(&self.flags, i) {
            Some((_, flag)) => flag,
            None => false,
        }
    }

    /// The detail payload at position `i`.
    pub fn detail_at(&self, i: usize) -> (d: &D)
        requires
            self.wf(),
            i < self@.len(),
        ensures
            *d == self@[i as int].detail,
    {
        &self.details[i]
    }

    /// The expand flag of `id`, or `None` where it is not selected.
    pub fn expanded(&self, id: usize) -> (r: Option<bool>)
        requires
            self.wf(),
        ensures
            r.is_some() == has_id(self@, id),
            r matches Some(flag) ==> flag == self@[position(self@, id)].expanded,
    {
        match self.index_of(id) {
            Some(i) => Some(self.expanded_at(i)),
            None => None,
        }
    }

    /// Selects `id` with the given payload and flag. An id that is selected
    /// already keeps its place and takes both.
    pub fn insert(&mut self, id: usize, detail: D, expanded: bool)
        requires
            old(self).wf(),
        ensures
            final(self).wf(),
            final(self)@ == upserted(old(self)@, Slot { id, detail, expanded }),
    {
        let ghost before = self@;
        let ghost before_flags = entries(self.flags);
        match self.index_of(id) {
            Some(i) => {
                flags_set_at(&mut self.flags, i, expanded);
                self.details[i] = detail;
                assert(self@ =~= before.update(i as int, Slot { id, detail, expanded }));
            },
            None => {
                let r = flags_insert(&mut self.flags, id, expanded);
                proof {
                    assert forall|j: int| 0 <= j < before_flags.len() implies (
                    #[trigger] before_flags[j]).0 != id by {
                        assert(before[j].id != id);
                    }
                    if let Some(earlier) = r {
                        let j = choose|j: int|
                            0 <= j < before_flags.len() && #[trigger] before_flags[j] == (
                                id,
                                earlier,
                            );
                        assert(before_flags[j].0 == id);
                    }
                }
                self.details.push(detail);
                assert(self@ =~= before.push(Slot { id, detail, expanded }));
            },
        }
    }

    /// Deselects `id`; says whether it was selected.
    pub fn remove(&mut self, id: usize) -> (was_selected: bool)
        requires
            old(self).wf(),
        ensures
            final(self).wf(),
            was_selected == has_id(old(self)@, id),
            final(self)@ == removed(old(self)@, id),
    {
        let ghost before = self@;
        let ghost before_flags = entries(self.flags);
        match self.index_of(id) {
            Some(i) => {
                let r = flags_shift_remove(&mut self.flags, id);
                proof {
                    match r {
                        Some(flag) => {
                            let j = choose|j: int|
                                0 <= j < before_flags.len() && #[trigger] before_flags[j] == (
                                    id,
                                    flag,
                                ) && entries(self.flags) == before_flags.remove(j);
                            assert(before[j].id == id);
                            assert(j == i);
                        },
                        None => {
                            assert(before_flags[i as int].0 == id);
                        },
                    }
                }
                let _ = self.details.remove(i);
                assert(self@ =~= before.remove(i as int));
                true
            },
            None => false,
        }
    }

    /// Deselects everything.
    pub fn clear(&mut self)
        requires
            old(self).wf(),
        ensures
            final(self).wf(),
            final(self)@ == Seq::<Slot<D>>::empty(),
    {
        flags_clear(&mut self.flags);
        self.details.clear();
        assert(self@ =~= Seq::<Slot<D>>::empty());
    }

    /// Sets the expand flag at position `i`.
    pub fn set_expanded_at(&mut self, i: usize, value: bool)
        requires
            old(self).wf(),
            i < old(self)@.len(),
        ensures
            final(self).wf(),
            final(self)@ == flagged_at(old(self)@, i as int, value),
    {
        let ghost before = self@;
        flags_set_at(&mut self.flags, i, value);
        assert(self@ =~= flagged_at(before, i as int, value));
    }

    /// Replaces the detail payload at position `i`.
    pub fn set_detail_at(&mut self, i: usize, detail: D)
        requires
            old(self).wf(),
            i < old(self)@.len(),
        ensures
            final(self).wf(),
            final(self)@ == detailed_at(old(self)@, i as int, detail),
    {
        let ghost before = self@;
        self.details[i] = detail;
        assert(self@ =~= detailed_at(before, i as int, detail));
    }

    /// Sets every expand flag to `value`.
    pub fn set_all_expanded(&mut self, value: bool)
        requires
            old(self).wf(),
        ensures
            final(self).wf(),
            final(self)@ == all_flagged(old(self)@, value),
    {
        let ghost before = self@;
        let n = self.len();
        let mut i: usize = 0;
        while i < n
            invariant
                self.wf(),
                n == before.len(),
                self@.len() == n,
                i <= n,
                forall|j: int| 0 <= j < i ==> #[trigger] self@[j] == all_flagged(before, value)[j],
                forall|j: int| i <= j < n ==> #[trigger] self@[j] == before[j],
            decreases n - i,
        {
            self.set_expanded_at(i, value);
            i += 1;
        }
        assert(self@ =~= all_flagged(before, value));
    }

    /// Derives every detail again under `flag`. Ids, order and expand flags stay.
    pub fn rederive<F: Fn(usize, bool) -> D>(&mut self, lookup: &F, flag: bool)
        requires
            old(self).wf(),
            forall|i: int|
                0 <= i < old(self)@.len() ==> lookup.requires(((#[trigger] old(self)@[i]).id, flag)),
        ensures
            final(self).wf(),
            same_frame(final(self)@, old(self)@),
            derived_from(final(self)@, lookup, flag),
    {
        let ghost before = self@;
        let n = self.len();
        let mut i: usize = 0;
        while i < n
            invariant
                self.wf(),
                n == before.len(),
                i <= n,
                same_frame(self@, before),
                forall|j: int| 0 <= j < n ==> lookup.requires(((#[trigger] before[j]).id, flag)),
                forall|j: int|
                    0 <= j < i ==> lookup.ensures(((#[trigger] self@[j]).id, flag), self@[j].detail),
            decreases n - i,
        {
            let id = self.id_at(i);
            assert(before[i as int].id == id);
            let detail = lookup(id, flag);
            self.set_detail_at(i, detail);
            i += 1;
        }
    }

    /// Replaces the whole set by `ids`, in their order and folded, each with
    /// the detail that `lookup` gives for it under `flag`. An id that occurs
    /// again keeps its first place.
    pub fn replace_with<F: Fn(usize, bool) -> D>(&mut self, ids: &Vec<usize>, lookup: &F, flag: bool)
        requires
            old(self).wf(),
            forall|k: int| 0 <= k < ids@.len() ==> lookup.requires((#[trigger] ids@[k], flag)),
        ensures
            final(self).wf(),
            ids_of(final(self)@) == first_occurrences(ids@),
            all_folded(final(self)@),
            derived_from(final(self)@, lookup, flag),
    {
        self.clear();
        assert(ids_of(self@) =~= first_occurrences(ids@.take(0)));
        let n = ids.len();
        let mut k: usize = 0;
        while k < n
            invariant
                self.wf(),
                n == ids@.len(),
                k <= n,
                forall|j: int| 0 <= j < n ==> lookup.requires((#[trigger] ids@[j], flag)),
                ids_of(self@) == first_occurrences(ids@.take(k as int)),
                all_folded(self@),
                derived_from(self@, lookup, flag),
            decreases n - k,
        {
            let id = ids[k];
            let detail = lookup(id, flag);
            let ghost before = self@;
            let ghost slot = Slot { id, detail, expanded: false };
            self.insert(id, detail, false);
            proof {
                lemma_upserted_ids(before, slot);
                assert(ids@.take(k + 1).drop_last() =~= ids@.take(k as int));
                assert(ids@.take(k + 1).last() == id);
                if has_id(before, id) {
                    let p = position(before, id);
                    assert(0 <= p < before.len() && before[p].id == id);
                }
            }
            k += 1;
        }
        assert(ids@.take(n as int) =~= ids@);
    }

    /// The selected ids, in order.
    pub fn ids(&self) -> (r: Vec<usize>)
        requires
            self.wf(),
        ensures
            r@ == ids_of(self@),
    {
        let n = self.len();
        let mut r: Vec<usize> = Vec::new();
        let mut i: usize = 0;
        while i < n
            invariant
                self.wf(),
                n == self@.len(),
                i <= n,
                r@.len() == i,
                forall|j: int| 0 <= j < i ==> #[trigger] r@[j] == self@[j].id,
            decreases n - i,
        {
            r.push(self.id_at(i));
            i += 1;
        }
        assert(r@ =~= ids_of(self@));
        r
    }

    /// The detail payloads, in order.
    pub fn details(&self) -> (r: &Vec<D>)
        requires
            self.wf(),
        ensures
            r@ == details_of(self@),
    {
        assert(self.details@ =~= details_of(self@));
        &self.details
    }
}

} // verus!
