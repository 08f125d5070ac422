//! The check map: what each check of a world holds so far.

use crate::item::FillerItem;
use vstd::multiset::Multiset;
use vstd::prelude::*;

verus! {

/// The items that a check map binds, each as often as it is bound.
pub open spec fn bound_items(slots: Seq<Option<FillerItem>>) -> Multiset<FillerItem>
    decreases slots.len(),
{
    if slots.len() == 0 {
        Multiset::empty()
    } else {
        match slots.last() {
            Some(item) => bound_items(slots.drop_last()).insert(item),
            None => bound_items(slots.drop_last()),
        }
    }
}

/// The number of checks that hold nothing yet.
pub open spec fn empty_count(slots: Seq<Option<FillerItem>>) -> nat
    decreases slots.len(),
{
    if slots.len() == 0 {
        0
    } else {
        empty_count(slots.drop_last()) + if slots.last() is None {
            1nat
        } else {
            0nat
        }
    }
}

/// Whether every check holds an item.
pub open spec fn all_bound(slots: Seq<Option<FillerItem>>) -> bool {
    forall|c: int| 0 <= c < slots.len() ==> (#[trigger] slots[c]) is Some
}

/// Whether `after` has the checks of `before` and keeps every binding of it.
pub open spec fn keeps(before: Seq<Option<FillerItem>>, after: Seq<Option<FillerItem>>) -> bool {
    &&& after.len() == before.len()
    &&& forall|c: int| 0 <= c < before.len() && (#[trigger] before[c]) is Some ==> after[c] == before[c]
}

/// An empty list holds no items.
pub proof fn lemma_no_items(list: Seq<FillerItem>)
    requires
        list.len() == 0,
    ensures
        list.to_multiset() == Multiset::<FillerItem>::empty(),
{
    vstd::seq_lib::to_multiset_len(list);
    vstd::multiset::lemma_multiset_empty_len(list.to_multiset());
    assert(list.to_multiset() =~= Multiset::<FillerItem>::empty());
}

/// A check map has no empty check exactly if every check of it holds an
/// item.
pub proof fn lemma_empty_count_zero(slots: Seq<Option<FillerItem>>)
    ensures
        empty_count(slots) == 0 <==> all_bound(slots),
        empty_count(slots) <= slots.len(),
    decreases slots.len(),
{
    if slots.len() > 0 {
        lemma_empty_count_zero(slots.drop_last());
        if all_bound(slots) {
            assert forall|c: int| 0 <= c < slots.drop_last().len() implies (#[trigger] slots.drop_last()[c]) is Some by {
                assert(slots[c] is Some);
            }
        }
        if empty_count(slots) == 0 {
            assert forall|c: int| 0 <= c < slots.len() implies (#[trigger] slots[c]) is Some by {
                if c < slots.len() - 1 {
                    assert(slots.drop_last()[c] is Some);
                }
            }
        }
    }
}

/// Binding an empty check adds the item to the bound items and takes one
/// from the number of empty checks.
pub proof fn lemma_bind_empty(slots: Seq<Option<FillerItem>>, check: int, item: FillerItem)
    requires
        0 <= check < slots.len(),
        slots[check] is None,
    ensures
        bound_items(slots.update(check, Some(item))) == bound_items(slots).insert(item),
        empty_count(slots.update(check, Some(item))) + 1 == empty_count(slots),
    decreases slots.len(),
{
    let after = slots.update(check, Some(item));
    if check == slots.len() - 1 {
        assert(after.drop_last() =~= slots.drop_last());
    } else {
        lemma_bind_empty(slots.drop_last(), check, item);
        assert(after.drop_last() =~= slots.drop_last().update(check, Some(item)));
        match slots.last() {
            Some(last) => {
                assert(bound_items(slots.drop_last()).insert(item).insert(last) =~= bound_items(
                    slots.drop_last(),
                ).insert(last).insert(item));
            },
            None => {},
        }
    }
}

/// Binding a check that holds an item already puts the new item in place
/// of the old one.
pub proof fn lemma_bind_again(slots: Seq<Option<FillerItem>>, check: int, item: FillerItem)
    requires
        0 <= check < slots.len(),
        slots[check] is Some,
    ensures
        bound_items(slots.update(check, Some(item))) == bound_items(slots).remove(
            slots[check]->0,
        ).insert(item),
        bound_items(slots).count(slots[check]->0) > 0,
        empty_count(slots.update(check, Some(item))) == empty_count(slots),
    decreases slots.len(),
{
    let after = slots.update(check, Some(item));
    let gone = slots[check]->0;
    if check == slots.len() - 1 {
        assert(after.drop_last() =~= slots.drop_last());
        assert(bound_items(slots.drop_last()).insert(gone).remove(gone).insert(item) =~= bound_items(
            slots.drop_last(),
        ).insert(item));
    } else {
        lemma_bind_again(slots.drop_last(), check, item);
        assert(after.drop_last() =~= slots.drop_last().update(check, Some(item)));
        match slots.last() {
            Some(last) => {
                assert(bound_items(slots.drop_last()).remove(gone).insert(item).insert(last)
                    =~= bound_items(slots.drop_last()).insert(last).remove(gone).insert(item));
            },
            None => {},
        }
    }
}

/// What each check of a world holds so far, check by check in the order of
/// the world graph: an item, or nothing yet.
#[derive(Debug, PartialEq, Eq)]
pub struct CheckMap {
    pub slots: Vec<Option<FillerItem>>,
}

impl View for CheckMap {
    type V = Seq<Option<FillerItem>>;

    open spec fn view(&self) -> Seq<Option<FillerItem>> {
        self.slots@
    }
}

impl CheckMap {
    /// The number of checks.
    pub fn len(&self) -> (r: usize)
        ensures
            r == self@.len(),
    {
        self.slots.len()
    }

    /// What the check holds.
    pub fn get(&self, check: usize) -> (r: Option<FillerItem>)
        requires
            check < self@.len(),
        ensures
            r == self@[check as int],
    {
        self.slots[check]
    }

    /// Binds the item to the check, whatever the check held.
    pub fn insert(&mut self, check: usize, item: FillerItem)
        requires
            check < old(self)@.len(),
        ensures
            final(self)@ == old(self)@.update(check as int, Some(item)),
    {
        self.slots.set(check, Some(item));
    }
}

/// What a check map binds and what it leaves empty are its checks.
pub proof fn lemma_bound_len(slots: Seq<Option<FillerItem>>)
    ensures
        bound_items(slots).len() + empty_count(slots) == slots.len(),
    decreases slots.len(),
{
    broadcast use vstd::multiset::group_multiset_axioms;

    if slots.len() > 0 {
        lemma_bound_len(slots.drop_last());
    }
}

/// Of two collections of items of the same size, one within the other,
/// each holds what the other holds.
pub proof fn lemma_same_size(a: Multiset<FillerItem>, b: Multiset<FillerItem>)
    requires
        a.subset_of(b),
        a.len() == b.len(),
    ensures
        a == b,
{
    broadcast use vstd::multiset::group_multiset_axioms;

    let rest = b.sub(a);
    assert(rest.add(a) =~= b);
    assert(rest.len() == 0);
    vstd::multiset::lemma_multiset_empty_len(rest);
    assert(a =~= b);
}

/// A check map in which every check that held an item still holds one has
/// no more empty checks than before.
pub proof fn lemma_fewer_empty(before: Seq<Option<FillerItem>>, after: Seq<Option<FillerItem>>)
    requires
        after.len() == before.len(),
        forall|c: int| 0 <= c < before.len() && (#[trigger] before[c]) is Some ==> after[c] is Some,
    ensures
        empty_count(after) <= empty_count(before),
    decreases before.len(),
{
    if before.len() > 0 {
        assert forall|c: int| 0 <= c < before.drop_last().len() && (#[trigger] before.drop_last()[c]) is Some implies after.drop_last()[c] is Some by {
            assert(before[c] is Some);
        }
        lemma_fewer_empty(before.drop_last(), after.drop_last());
        assert(before[before.len() - 1] is Some ==> after[before.len() - 1] is Some);
    }
}

} // verus!
