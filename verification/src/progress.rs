//! The inventory that the guards are asked about.

use crate::item::{FillerItem, ITEM_COUNT};
use crate::settings::Logic;
use vstd::prelude::*;

verus! {

/// The number of flags that are set.
pub open spec fn count_set(flags: Seq<bool>) -> nat
    decreases flags.len(),
{
    if flags.len() == 0 {
        0
    } else {
        count_set(flags.drop_last()) + if flags.last() {
            1nat
        } else {
            0nat
        }
    }
}

proof fn lemma_count_set_bound(flags: Seq<bool>)
    ensures
        count_set(flags) <= flags.len(),
    decreases flags.len(),
{
    if flags.len() > 0 {
        lemma_count_set_bound(flags.drop_last());
    }
}

proof fn lemma_count_set_raise(flags: Seq<bool>, i: int)
    requires
        0 <= i < flags.len(),
        !flags[i],
    ensures
        count_set(flags.update(i, true)) == count_set(flags) + 1,
    decreases flags.len(),
{
    let raised = flags.update(i, true);
    if i == flags.len() - 1 {
        assert(raised.drop_last() =~= flags.drop_last());
    } else {
        lemma_count_set_raise(flags.drop_last(), i);
        assert(raised.drop_last() =~= flags.drop_last().update(i, true));
    }
}

/// How many entries of the list are in the set; an entry that the list
/// repeats counts each time.
pub open spec fn held_among(held: Set<FillerItem>, list: Seq<FillerItem>) -> nat
    decreases list.len(),
{
    if list.len() == 0 {
        0
    } else {
        held_among(held, list.drop_last()) + if held.contains(list.last()) {
            1nat
        } else {
            0nat
        }
    }
}

/// A larger inventory holds at least as many entries of a list.
pub proof fn lemma_held_among_monotone(a: Set<FillerItem>, b: Set<FillerItem>, list: Seq<FillerItem>)
    requires
        a.subset_of(b),
    ensures
        held_among(a, list) <= held_among(b, list),
        held_among(b, list) <= list.len(),
    decreases list.len(),
{
    if list.len() > 0 {
        lemma_held_among_monotone(a, b, list.drop_last());
    }
}

/// An inventory: the set of the tags that are held, and the logic settings
/// that the guards read with it.
pub struct Progress {
    held: Vec<bool>,
    count: usize,
    logic: Logic,
}

impl View for Progress {
    type V = Set<FillerItem>;

    /// The tags that are held.
    closed spec fn view(&self) -> Set<FillerItem> {
        Set::new(|item: FillerItem| self.held@[item.position()])
    }
}

impl Progress {
    /// One flag for each tag of the catalogue, and the count of those set.
    pub closed spec fn wf(&self) -> bool {
        &&& self.held@.len() == ITEM_COUNT
        &&& self.count == count_set(self.held@)
    }

    /// The logic settings that the guards read.
    pub closed spec fn logic(&self) -> Logic {
        self.logic
    }

    /// The number of tags that are held.
    pub closed spec fn size(&self) -> nat {
        self.count as nat
    }

    /// No inventory holds more tags than the catalogue has.
    pub proof fn lemma_size_bound(&self)
        requires
            self.wf(),
        ensures
            self.size() <= ITEM_COUNT,
    {
        lemma_count_set_bound(self.held@);
    }

    /// The empty inventory.
    pub fn new(logic: Logic) -> (r: Progress)
        ensures
            r.wf(),
            r@ == Set::<FillerItem>::empty(),
            r.logic() == logic,
            r.size() == 0,
    {
        let mut held: Vec<bool> = Vec::new();
        let mut i: usize = 0;
        while i < ITEM_COUNT
            invariant
                i <= ITEM_COUNT,
                held@.len() == i,
                forall|j: int| 0 <= j < i ==> !held@[j],
                count_set(held@) == 0,
            decreases ITEM_COUNT - i,
        {
            let ghost before = held@;
            held.push(false);
            assert(held@.drop_last() =~= before);
            i += 1;
        }
        let r = Progress { held, count: 0, logic };
        proof {
            assert forall|item: FillerItem| !r@.contains(item) by {
                item.lemma_at_position();
            }
            assert(r@ =~= Set::<FillerItem>::empty());
        }
        r
    }

    /// The logic settings that the guards read.
    pub fn settings(&self) -> (r: Logic)
        ensures
            r == self.logic(),
    {
        self.logic
    }

    /// Whether the tag is held.
    pub fn has(&self, item: FillerItem) -> (r: bool)
        requires
            self.wf(),
        ensures
            r == self@.contains(item),
    {
        self.held[item.index()]
    }

    /// The number of tags that are held.
    pub fn len(&self) -> (r: usize)
        ensures
            r == self.size(),
    {
        self.count
    }

    /// Whether nothing is held.
    pub fn is_empty(&self) -> (r: bool)
        requires
            self.wf(),
        ensures
            r == (self.size() == 0),
    {
        self.count == 0
    }

    /// Puts a tag into the inventory; one that is held already changes nothing.
    pub fn add_item(&mut self, item: FillerItem)
        requires
            old(self).wf(),
        ensures
            final(self).wf(),
            final(self)@ == old(self)@.insert(item),
            final(self).logic() == old(self).logic(),
            final(self).size() == old(self).size() + if old(self)@.contains(item) {
                0nat
            } else {
                1nat
            },
    {
        let i: usize = item.index();
        let ghost before = self.held@;
        if !self.held[i] {
            proof {
                lemma_count_set_raise(before, i as int);
                lemma_count_set_bound(before.update(i as int, true));
            }
            self.held.set(i, true);
            self.count = self.count + 1;
        }
        proof {
            assert forall|x: FillerItem| self@.contains(x) == old(self)@.insert(item).contains(x) by {
                x.lemma_at_position();
                item.lemma_at_position();
            }
            assert(self@ =~= old(self)@.insert(item));
        }
    }

    /// How many entries of the list are held.
    pub fn count_held(&self, list: &Vec<FillerItem>) -> (r: usize)
        requires
            self.wf(),
        ensures
            r == held_among(self@, list@),
    {
        let mut n: usize = 0;
        let mut i: usize = 0;
        while i < list.len()
            invariant
                self.wf(),
                i <= list@.len(),
                n == held_among(self@, list@.subrange(0, i as int)),
                n <= i,
            decreases list@.len() - i,
        {
            assert(list@.subrange(0, i + 1).drop_last() =~= list@.subrange(0, i as int));
            if self.has(list[i]) {
                n += 1;
            }
            i += 1;
        }
        assert(list@.subrange(0, list@.len() as int) =~= list@);
        n
    }

    /// The tags that are held here and not in `other`, each once, in
    /// catalogue order.
    pub fn difference(&self, other: &Progress) -> (r: Vec<FillerItem>)
        requires
            self.wf(),
            other.wf(),
        ensures
            r@.no_duplicates(),
            forall|item: FillerItem|
                r@.contains(item) <==> (self@.contains(item) && !other@.contains(item)),
            forall|i: int, j: int|
                0 <= i < j < r@.len() ==> (#[trigger] r@[i]).position() < (#[trigger] r@[j]).position(),
    {
        let mut r: Vec<FillerItem> = Vec::new();
        let mut i: usize = 0;
        while i < ITEM_COUNT
            invariant
                self.wf(),
                other.wf(),
                i <= ITEM_COUNT,
                forall|k: int| 0 <= k < r@.len() ==> (#[trigger] r@[k]).position() < i,
                forall|k: int, l: int|
                    0 <= k < l < r@.len() ==> (#[trigger] r@[k]).position() < (
                    #[trigger] r@[l]).position(),
                forall|k: int|
                    0 <= k < r@.len() ==> self@.contains(#[trigger] r@[k]) && !other@.contains(
                        r@[k],
                    ),
                forall|item: FillerItem|
                    item.position() < i && self@.contains(item) && !other@.contains(item)
                        ==> r@.contains(item),
            decreases ITEM_COUNT - i,
        {
            if self.held[i] && !other.held[i] {
                let found = FillerItem::from_index(i);
                proof {
                    FillerItem::lemma_position_at(i as int);
                }
                let item = found.unwrap();
                let ghost before = r@;
                r.push(item);
                proof {
                    assert forall|x: FillerItem|
                        x.position() < i + 1 && self@.contains(x) && !other@.contains(x)
                            implies r@.contains(x) by {
                        x.lemma_at_position();
                        if x.position() < i {
                            let k = choose|k: int| 0 <= k < before.len() && before[k] == x;
                            assert(r@[k] == x);
                        } else {
                            assert(r@[before.len() as int] == x);
                        }
                    }
                }
            } else {
                proof {
                    assert forall|x: FillerItem|
                        x.position() < i + 1 && self@.contains(x) && !other@.contains(x)
                            implies r@.contains(x) by {
                        x.lemma_at_position();
                    }
                }
            }
            i += 1;
        }
        proof {
            assert forall|item: FillerItem|
                r@.contains(item) <==> (self@.contains(item) && !other@.contains(item)) by {
                item.lemma_at_position();
            }
        }
        r
    }
}

} // verus!
