//! Checks bound by name: what a run of such bindings changes, and what it
//! leaves as it was.

use crate::account::{in_pool, lemma_bind_named_is_update, lemma_spent, lemma_spent_twice, spent};
use crate::filter::{fitly_changed, fits};
use crate::item::FillerItem;
use crate::placement::{bind_named, is_named, is_not, without};
use crate::world::WorldGraph;
use vstd::prelude::*;

verus! {

/// Whether the check with the name, if the world has one, holds the item.
pub open spec fn holds_at(
    graph: &WorldGraph,
    slots: Seq<Option<FillerItem>>,
    name: Seq<char>,
    item: FillerItem,
) -> bool {
    forall|c: int| 0 <= c < slots.len() && #[trigger] is_named(graph, c, name) ==> slots[c] == Some(item)
}

/// Whether the world has a check for each of the names.
pub open spec fn all_named(graph: &WorldGraph, names: Seq<Seq<char>>) -> bool {
    forall|k: int| 0 <= k < names.len() ==> graph.has_name(#[trigger] names[k])
}

/// Whether each check with one of the names holds an item of the list.
pub open spec fn hold_from(
    graph: &WorldGraph,
    slots: Seq<Option<FillerItem>>,
    names: Seq<Seq<char>>,
    items: Seq<FillerItem>,
) -> bool {
    forall|k: int, c: int|
        0 <= k < names.len() && 0 <= c < slots.len() && #[trigger] is_named(graph, c, names[k]) ==> (
        #[trigger] slots[c]) is Some && items.contains(slots[c]->0)
}

/// Whether every change bound, to a check with one of the names, an item
/// of the list.
pub open spec fn changed_by_name(
    graph: &WorldGraph,
    before: Seq<Option<FillerItem>>,
    after: Seq<Option<FillerItem>>,
    names: Seq<Seq<char>>,
    items: Seq<FillerItem>,
) -> bool {
    &&& after.len() == before.len()
    &&& forall|c: int|
        0 <= c < before.len() && (#[trigger] after[c]) != before[c] ==> {
            &&& exists|k: int| 0 <= k < names.len() && is_named(graph, c, #[trigger] names[k])
            &&& after[c] is Some
            &&& items.contains(after[c]->0)
        }
}

/// Whether the pool holds nothing but filler.
pub open spec fn only_trash(pool: Seq<FillerItem>) -> bool {
    forall|i: int| 0 <= i < pool.len() ==> (#[trigger] pool[i]).trash()
}

/// The check map after the items were bound, one after the other, to the
/// checks with the names.
pub open spec fn bind_all(
    graph: &WorldGraph,
    slots: Seq<Option<FillerItem>>,
    names: Seq<Seq<char>>,
    items: Seq<FillerItem>,
) -> Seq<Option<FillerItem>>
    decreases names.len(),
{
    if names.len() == 0 || items.len() == 0 {
        slots
    } else {
        bind_named(
            graph,
            bind_all(graph, slots, names.drop_last(), items.drop_last()),
            names.last(),
            items.last(),
        )
    }
}

/// The pool after the copies of each of the items were taken out.
pub open spec fn without_all(pool: Seq<FillerItem>, items: Seq<FillerItem>) -> Seq<FillerItem>
    decreases items.len(),
{
    if items.len() == 0 {
        pool
    } else {
        without(without_all(pool, items.drop_last()), items.last())
    }
}

/// Below a check with a name there is a first check with that name.
proof fn lemma_first_named(graph: &WorldGraph, name: Seq<char>, found: int)
    requires
        0 <= found < graph.checks@.len(),
        graph.checks@[found].name@ == name,
    ensures
        exists|c: int|
            0 <= c <= found && (#[trigger] graph.checks@[c]).name@ == name && forall|b: int|
                0 <= b < c ==> (#[trigger] graph.checks@[b]).name@ != name,
        0 <= graph.named(name) < graph.checks@.len(),
        graph.checks@[graph.named(name)].name@ == name,
    decreases found,
{
    if exists|b: int| 0 <= b < found && (#[trigger] graph.checks@[b]).name@ == name {
        let b = choose|b: int| 0 <= b < found && (#[trigger] graph.checks@[b]).name@ == name;
        lemma_first_named(graph, name, b);
    } else {
        assert(graph.checks@[found].name@ == name && forall|b: int|
            0 <= b < found ==> (#[trigger] graph.checks@[b]).name@ != name);
    }
}

/// The first check with a name has that name, and the world has a first
/// check with each name that one of its checks has.
pub proof fn lemma_named(graph: &WorldGraph, check: int, name: Seq<char>)
    ensures
        is_named(graph, check, name) ==> 0 <= check < graph.checks@.len() && graph.checks@[check].name@
            == name,
        0 <= check < graph.checks@.len() && graph.checks@[check].name@ == name ==> exists|c: int|
            0 <= c <= check && is_named(graph, c, name),
{
    reveal(is_named);
    if graph.has_name(name) {
        let some = choose|c: int| 0 <= c < graph.checks@.len() && (#[trigger] graph.checks@[c]).name@ == name;
        lemma_first_named(graph, name, some);
    }
    if 0 <= check < graph.checks@.len() && graph.checks@[check].name@ == name {
        lemma_first_named(graph, name, check);
        assert(is_named(graph, graph.named(name), name));
        if graph.named(name) > check {
            assert(graph.checks@[check].name@ != name);
        }
    }
}

/// Binding one item more is one more step.
pub proof fn lemma_bind_all_step(
    graph: &WorldGraph,
    slots: Seq<Option<FillerItem>>,
    pool: Seq<FillerItem>,
    names: Seq<Seq<char>>,
    items: Seq<FillerItem>,
    k: int,
)
    requires
        0 <= k < names.len(),
        names.len() == items.len(),
    ensures
        bind_all(graph, slots, names.subrange(0, k + 1), items.subrange(0, k + 1)) == bind_named(
            graph,
            bind_all(graph, slots, names.subrange(0, k), items.subrange(0, k)),
            names[k],
            items[k],
        ),
        without_all(pool, items.subrange(0, k + 1)) == without(without_all(pool, items.subrange(0, k)), items[k]),
{
    assert(names.subrange(0, k + 1).drop_last() =~= names.subrange(0, k));
    assert(items.subrange(0, k + 1).drop_last() =~= items.subrange(0, k));
}

/// After items were bound to checks of different names, each of those
/// checks that the world has holds its item, each change is the binding of
/// one of the items to the check with its name, and no other check has
/// changed.
pub proof fn lemma_bind_all(
    graph: &WorldGraph,
    slots: Seq<Option<FillerItem>>,
    names: Seq<Seq<char>>,
    items: Seq<FillerItem>,
)
    requires
        slots.len() == graph.checks@.len(),
        names.len() == items.len(),
        forall|i: int, j: int| 0 <= i < j < names.len() ==> #[trigger] names[i] != #[trigger] names[j],
    ensures
        bind_all(graph, slots, names, items).len() == slots.len(),
        forall|k: int|
            0 <= k < names.len() ==> holds_at(
                graph,
                bind_all(graph, slots, names, items),
                #[trigger] names[k],
                items[k],
            ),
        forall|c: int|
            0 <= c < slots.len() && (#[trigger] bind_all(graph, slots, names, items)[c]) != slots[c]
                ==> exists|k: int|
                0 <= k < names.len() && is_named(graph, c, #[trigger] names[k]) && bind_all(
                    graph,
                    slots,
                    names,
                    items,
                )[c] == Some(items[k]),
    decreases names.len(),
{
    if names.len() > 0 {
        let fewer = names.drop_last();
        let before = bind_all(graph, slots, fewer, items.drop_last());
        let after = bind_all(graph, slots, names, items);
        lemma_bind_all(graph, slots, fewer, items.drop_last());
        let last = names.last();
        assert forall|k: int| 0 <= k < names.len() implies holds_at(
            graph,
            after,
            #[trigger] names[k],
            items[k],
        ) by {
            assert forall|c: int| 0 <= c < after.len() && #[trigger] is_named(graph, c, names[k]) implies after[c]
                == Some(items[k]) by {
                if k < fewer.len() {
                    assert(names[k] == fewer[k]);
                    assert(names[k] != names[names.len() - 1]);
                    lemma_named(graph, c, names[k]);
                    lemma_named(graph, c, last);
                    assert(holds_at(graph, before, fewer[k], items.drop_last()[k]));
                }
            }
        }
        assert forall|c: int| 0 <= c < slots.len() && (#[trigger] after[c]) != slots[c] implies exists|
            k: int,
        |
            0 <= k < names.len() && is_named(graph, c, #[trigger] names[k]) && after[c] == Some(items[k]) by {
            if after[c] != before[c] {
                assert(is_named(graph, c, names[names.len() - 1]));
            } else {
                let k = choose|k: int|
                    0 <= k < fewer.len() && is_named(graph, c, #[trigger] fewer[k]) && before[c] == Some(
                        items.drop_last()[k],
                    );
                assert(is_named(graph, c, names[k]));
            }
        }
    }
}

/// Items of the pool that are bound by name, each to one check or to
/// none, and taken out of the pool, add nothing to what is in hand; and
/// the pool holds every other item as it did.
pub proof fn lemma_bind_all_spent(
    graph: &WorldGraph,
    slots: Seq<Option<FillerItem>>,
    names: Seq<Seq<char>>,
    items: Seq<FillerItem>,
    pool: Seq<FillerItem>,
)
    requires
        names.len() == items.len(),
        forall|i: int, j: int| 0 <= i < j < items.len() ==> #[trigger] items[i] != #[trigger] items[j],
        forall|k: int| 0 <= k < items.len() ==> in_pool(pool, #[trigger] items[k]),
    ensures
        spent(slots, pool, bind_all(graph, slots, names, items), without_all(pool, items)),
        forall|x: FillerItem|
            !items.contains(x) ==> #[trigger] in_pool(without_all(pool, items), x) == in_pool(pool, x),
    decreases names.len(),
{
    if names.len() > 0 {
        let fewer = items.drop_last();
        let before = bind_all(graph, slots, names.drop_last(), fewer);
        let less = without_all(pool, fewer);
        lemma_bind_all_spent(graph, slots, names.drop_last(), fewer, pool);
        let item = items.last();
        assert(!fewer.contains(item)) by {
            if fewer.contains(item) {
                let i = choose|i: int| 0 <= i < fewer.len() && fewer[i] == item;
                assert(items[i] == items[items.len() - 1]);
            }
        }
        assert(in_pool(pool, items[items.len() - 1]));
        lemma_bind_named_is_update(graph, before, names.last(), item);
        lemma_spent(before, bind_all(graph, slots, names, items), item, less);
        lemma_spent_twice(slots, pool, before, less, bind_all(graph, slots, names, items), without_all(pool, items));
        assert forall|x: FillerItem| !items.contains(x) implies #[trigger] in_pool(without_all(pool, items), x)
            == in_pool(pool, x) by {
            assert(x != item) by {
                if x == item {
                    assert(items[items.len() - 1] == x);
                }
            }
            if fewer.contains(x) {
                let i = choose|i: int| 0 <= i < fewer.len() && fewer[i] == x;
                assert(items[i] == x);
            }
        }
    }
}

/// One more check bound by name to an item of the list is one more
/// change of that kind.
pub proof fn lemma_changed_by_name_step(
    graph: &WorldGraph,
    first: Seq<Option<FillerItem>>,
    slots: Seq<Option<FillerItem>>,
    names: Seq<Seq<char>>,
    items: Seq<FillerItem>,
    k: int,
    item: FillerItem,
)
    requires
        changed_by_name(graph, first, slots, names, items),
        0 <= k < names.len(),
        items.contains(item),
    ensures
        changed_by_name(graph, first, bind_named(graph, slots, names[k], item), names, items),
{
    let after = bind_named(graph, slots, names[k], item);
    assert forall|c: int| 0 <= c < first.len() && (#[trigger] after[c]) != first[c] implies {
        &&& exists|j: int| 0 <= j < names.len() && is_named(graph, c, #[trigger] names[j])
        &&& after[c] is Some
        &&& items.contains(after[c]->0)
    } by {
        if after[c] != slots[c] {
            assert(is_named(graph, c, names[k]));
        } else {
            assert(slots[c] != first[c]);
        }
    }
}

/// Every change bound an item to a check that may hold it, over two
/// stretches of changes as over each.
pub proof fn lemma_fitly_twice(
    graph: &WorldGraph,
    first: Seq<Option<FillerItem>>,
    second: Seq<Option<FillerItem>>,
    third: Seq<Option<FillerItem>>,
)
    requires
        fitly_changed(graph, first, second),
        fitly_changed(graph, second, third),
    ensures
        fitly_changed(graph, first, third),
{
    assert forall|c: int| 0 <= c < first.len() && (#[trigger] third[c]) != first[c] implies third[c] is Some
        && fits(graph, c, third[c]->0) by {
        if third[c] == second[c] {
            assert(second[c] != first[c]);
        }
    }
}

/// Filler lies on any check that it is bound to.
pub proof fn lemma_trash_fit(
    graph: &WorldGraph,
    before: Seq<Option<FillerItem>>,
    after: Seq<Option<FillerItem>>,
    names: Seq<Seq<char>>,
    trash: Seq<FillerItem>,
)
    requires
        changed_by_name(graph, before, after, names, trash),
        only_trash(trash),
    ensures
        fitly_changed(graph, before, after),
{
    assert forall|c: int| 0 <= c < before.len() && (#[trigger] after[c]) != before[c] implies after[c] is Some
        && fits(graph, c, after[c]->0) by {
        let item = after[c]->0;
        assert(trash.contains(item));
        let i = choose|i: int| 0 <= i < trash.len() && trash[i] == item;
        assert(trash[i].trash());
        item.lemma_dungeon_local();
    }
}

/// What is left of a list after one entry was taken out was in the list.
pub proof fn lemma_remove_within(list: Seq<FillerItem>, index: int, whole: Seq<FillerItem>)
    requires
        0 <= index < list.len(),
        forall|i: int| 0 <= i < list.len() ==> whole.contains(#[trigger] list[i]),
    ensures
        forall|i: int| 0 <= i < list.remove(index).len() ==> whole.contains(#[trigger] list.remove(index)[i]),
        whole.contains(list[index]),
{
    assert forall|i: int| 0 <= i < list.remove(index).len() implies whole.contains(
        #[trigger] list.remove(index)[i],
    ) by {
        let a = if i < index { i } else { i + 1 };
        assert(list.remove(index)[i] == list[a]);
    }
}

/// What is left of a pool after the copies of an item were taken out was
/// in the pool.
pub proof fn lemma_without_within(pool: Seq<FillerItem>, item: FillerItem, whole: Seq<FillerItem>)
    requires
        forall|i: int| 0 <= i < pool.len() ==> whole.contains(#[trigger] pool[i]),
    ensures
        forall|i: int| 0 <= i < without(pool, item).len() ==> whole.contains(#[trigger] without(pool, item)[i]),
{
    let rest = without(pool, item);
    assert forall|i: int| 0 <= i < rest.len() implies whole.contains(#[trigger] rest[i]) by {
        assert(rest.contains(rest[i]));
        pool.lemma_filter_contains_rev(is_not(item), rest[i]);
        let k = choose|k: int| 0 <= k < pool.len() && pool[k] == rest[i];
        assert(whole.contains(pool[k]));
    }
}

/// What is left of a pool after items were taken out was in the pool.
pub proof fn lemma_without_all_within(pool: Seq<FillerItem>, items: Seq<FillerItem>)
    ensures
        forall|i: int|
            0 <= i < without_all(pool, items).len() ==> pool.contains(#[trigger] without_all(pool, items)[i]),
    decreases items.len(),
{
    if items.len() > 0 {
        lemma_without_all_within(pool, items.drop_last());
        lemma_without_within(without_all(pool, items.drop_last()), items.last(), pool);
    }
}

/// A pool from which items were taken out holds every other item as it
/// did.
pub proof fn lemma_without_all_has(pool: Seq<FillerItem>, items: Seq<FillerItem>, other: FillerItem)
    requires
        !items.contains(other),
    ensures
        in_pool(without_all(pool, items), other) == in_pool(pool, other),
    decreases items.len(),
{
    if items.len() > 0 {
        let fewer = items.drop_last();
        assert(!fewer.contains(other)) by {
            if fewer.contains(other) {
                let i = choose|i: int| 0 <= i < fewer.len() && fewer[i] == other;
                assert(items[i] == other);
            }
        }
        assert(items[items.len() - 1] != other);
        lemma_without_all_has(pool, fewer, other);
        crate::account::lemma_without_count(without_all(pool, fewer), items.last(), other);
    }
}

/// A pool from which items were taken out holds none of them.
pub proof fn lemma_without_all_gone(pool: Seq<FillerItem>, items: Seq<FillerItem>, k: int)
    requires
        0 <= k < items.len(),
    ensures
        !in_pool(without_all(pool, items), items[k]),
    decreases items.len(),
{
    let fewer = items.drop_last();
    crate::account::lemma_without_count(without_all(pool, fewer), items.last(), items[k]);
    if k < fewer.len() {
        lemma_without_all_gone(pool, fewer, k);
        assert(fewer[k] == items[k]);
    }
}

/// What is within a list that is within another is within the other.
pub proof fn lemma_within_twice(inner: Seq<FillerItem>, middle: Seq<FillerItem>, outer: Seq<FillerItem>)
    requires
        forall|i: int| 0 <= i < inner.len() ==> middle.contains(#[trigger] inner[i]),
        forall|i: int| 0 <= i < middle.len() ==> outer.contains(#[trigger] middle[i]),
    ensures
        forall|i: int| 0 <= i < inner.len() ==> outer.contains(#[trigger] inner[i]),
{
    assert forall|i: int| 0 <= i < inner.len() implies outer.contains(#[trigger] inner[i]) by {
        let k = choose|k: int| 0 <= k < middle.len() && middle[k] == inner[i];
        assert(outer.contains(middle[k]));
    }
}

} // verus!
