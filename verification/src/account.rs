//! The account of a placement: what is bound on the check map and what is
//! still in the pools, taken together, never grows.

use crate::check_map::{bound_items, lemma_bind_again, lemma_bind_empty};
use crate::item::FillerItem;
use crate::placement::{bind_named, is_named, without};
use crate::world::WorldGraph;
use vstd::multiset::Multiset;
use vstd::prelude::*;
use vstd::seq_lib::{to_multiset_build, to_multiset_remove};

verus! {

/// What a placement has in hand: the items bound on the check map and the
/// items of the two pools, each as often as it is there.
pub open spec fn in_play(
    slots: Seq<Option<FillerItem>>,
    progression: Seq<FillerItem>,
    trash: Seq<FillerItem>,
) -> Multiset<FillerItem> {
    bound_items(slots).add(progression.to_multiset()).add(trash.to_multiset())
}

/// A pool without the copies of an item holds none of that item and as
/// many of every other as before.
pub proof fn lemma_without_count(pool: Seq<FillerItem>, item: FillerItem, other: FillerItem)
    ensures
        without(pool, item).to_multiset().count(other) == if other == item {
            0
        } else {
            pool.to_multiset().count(other)
        },
    decreases pool.len(),
{
    broadcast use vstd::multiset::group_multiset_axioms;

    reveal(Seq::filter);
    if pool.len() == 0 {
        crate::check_map::lemma_no_items(pool);
        crate::check_map::lemma_no_items(without(pool, item));
    } else {
        let shorter = pool.drop_last();
        lemma_without_count(shorter, item, other);
        assert(shorter.push(pool.last()) =~= pool);
        to_multiset_build(shorter, pool.last());
        if pool.last() != item {
            to_multiset_build(without(shorter, item), pool.last());
        }
    }
}

/// Binding by name binds one check of the check map or none.
pub proof fn lemma_bind_named_is_update(
    graph: &WorldGraph,
    slots: Seq<Option<FillerItem>>,
    name: Seq<char>,
    item: FillerItem,
)
    ensures
        bind_named(graph, slots, name, item) == slots || exists|c: int|
            0 <= c < slots.len() && bind_named(graph, slots, name, item) == #[trigger] slots.update(
                c,
                Some(item),
            ),
{
    reveal(is_named);
    if graph.has_name(name) && 0 <= graph.named(name) < slots.len() {
        assert(bind_named(graph, slots, name, item) =~= slots.update(graph.named(name), Some(item)));
    } else {
        assert(bind_named(graph, slots, name, item) =~= slots);
    }
}

/// Binding an item adds at most that item to what is bound.
pub proof fn lemma_bind_adds_one(slots: Seq<Option<FillerItem>>, check: int, item: FillerItem)
    requires
        0 <= check < slots.len(),
    ensures
        bound_items(slots.update(check, Some(item))).subset_of(bound_items(slots).insert(item)),
{
    broadcast use vstd::multiset::group_multiset_axioms;

    if slots[check] is None {
        lemma_bind_empty(slots, check, item);
    } else {
        lemma_bind_again(slots, check, item);
    }
}

/// An item of the pool that is bound to a check and leaves the pool adds
/// nothing to what is in hand.
pub proof fn lemma_bind_from_pool(
    before: Seq<Option<FillerItem>>,
    after: Seq<Option<FillerItem>>,
    item: FillerItem,
    pool: Seq<FillerItem>,
)
    requires
        pool.contains(item),
        after == before || exists|c: int|
            0 <= c < before.len() && after == #[trigger] before.update(c, Some(item)),
    ensures
        bound_items(after).add(without(pool, item).to_multiset()).subset_of(
            bound_items(before).add(pool.to_multiset()),
        ),
{
    broadcast use vstd::multiset::group_multiset_axioms;

    vstd::seq_lib::to_multiset_contains(pool, item);
    if after != before {
        let c = choose|c: int| 0 <= c < before.len() && after == #[trigger] before.update(c, Some(item));
        lemma_bind_adds_one(before, c, item);
    }
    assert forall|x: FillerItem|
        bound_items(after).add(without(pool, item).to_multiset()).count(x) <= bound_items(before).add(
            pool.to_multiset(),
        ).count(x) by {
        lemma_without_count(pool, item, x);
    }
}

/// A filler of the trash pool that is bound to a check and leaves the pool
/// adds nothing to what is in hand.
pub proof fn lemma_bind_from_trash(
    before: Seq<Option<FillerItem>>,
    after: Seq<Option<FillerItem>>,
    trash: Seq<FillerItem>,
    index: int,
)
    requires
        0 <= index < trash.len(),
        after == before || exists|c: int|
            0 <= c < before.len() && after == #[trigger] before.update(c, Some(trash[index])),
    ensures
        bound_items(after).add(trash.remove(index).to_multiset()).subset_of(
            bound_items(before).add(trash.to_multiset()),
        ),
{
    broadcast use vstd::multiset::group_multiset_axioms;

    let item = trash[index];
    to_multiset_remove(trash, index);
    assert(trash.contains(item));
    vstd::seq_lib::to_multiset_contains(trash, item);
    if after != before {
        let c = choose|c: int| 0 <= c < before.len() && after == #[trigger] before.update(c, Some(item));
        lemma_bind_adds_one(before, c, item);
    }
}

/// Whether the pool holds the item.
pub open spec fn in_pool(pool: Seq<FillerItem>, item: FillerItem) -> bool {
    pool.to_multiset().count(item) > 0
}

/// Whether the step from one check map and pool to the next bound `item`,
/// taken out of the pool, to a check or to none, without adding to what
/// is in hand, and left every other item of the pool as it was.
pub open spec fn spent(
    before: Seq<Option<FillerItem>>,
    pool: Seq<FillerItem>,
    after: Seq<Option<FillerItem>>,
    rest: Seq<FillerItem>,
) -> bool {
    bound_items(after).add(rest.to_multiset()).subset_of(bound_items(before).add(pool.to_multiset()))
}

/// One step after another adds nothing to what is in hand if neither does.
pub proof fn lemma_spent_twice(
    first: Seq<Option<FillerItem>>,
    pool: Seq<FillerItem>,
    second: Seq<Option<FillerItem>>,
    less: Seq<FillerItem>,
    third: Seq<Option<FillerItem>>,
    least: Seq<FillerItem>,
)
    requires
        spent(first, pool, second, less),
        spent(second, less, third, least),
    ensures
        spent(first, pool, third, least),
{
    assert forall|x: FillerItem|
        bound_items(third).add(least.to_multiset()).count(x) <= bound_items(first).add(
            pool.to_multiset(),
        ).count(x) by {
        assert(bound_items(third).add(least.to_multiset()).count(x) <= bound_items(second).add(
            less.to_multiset(),
        ).count(x));
        assert(bound_items(second).add(less.to_multiset()).count(x) <= bound_items(first).add(
            pool.to_multiset(),
        ).count(x));
    }
}

/// An item of the pool bound to one check or to none, and taken out of
/// the pool, is spent.
pub proof fn lemma_spent(
    before: Seq<Option<FillerItem>>,
    after: Seq<Option<FillerItem>>,
    item: FillerItem,
    pool: Seq<FillerItem>,
)
    requires
        in_pool(pool, item),
        after == before || exists|c: int|
            0 <= c < before.len() && after == #[trigger] before.update(c, Some(item)),
    ensures
        spent(before, pool, after, without(pool, item)),
        forall|x: FillerItem| x != item ==> #[trigger] in_pool(without(pool, item), x) == in_pool(pool, x),
{
    vstd::seq_lib::to_multiset_contains(pool, item);
    lemma_bind_from_pool(before, after, item, pool);
    assert forall|x: FillerItem| x != item implies #[trigger] in_pool(without(pool, item), x) == in_pool(pool, x) by {
        lemma_without_count(pool, item, x);
    }
}

} // verus!
