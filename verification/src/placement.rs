//! The single steps of a placement: binding an item to a check that is
//! named, drawn from a list, or drawn among the checks of one kind.

use crate::check_map::CheckMap;
use crate::error::FillError;
use crate::item::FillerItem;
use crate::rng::draw_below;
use crate::world::WorldGraph;
use rand::rngs::StdRng;
use vstd::prelude::*;

verus! {

/// Whether the check is the first one of the world with the name.
#[verifier::opaque]
pub open spec fn is_named(graph: &WorldGraph, check: int, name: Seq<char>) -> bool {
    graph.has_name(name) && graph.named(name) == check
}

/// The check map after the item was bound to the first check with the
/// name; the same check map where the world has no check with the name.
pub open spec fn bind_named(
    graph: &WorldGraph,
    slots: Seq<Option<FillerItem>>,
    name: Seq<char>,
    item: FillerItem,
) -> Seq<Option<FillerItem>> {
    Seq::new(
        slots.len(),
        |c: int|
            if is_named(graph, c, name) {
                Some(item)
            } else {
                slots[c]
            },
    )
}

/// Binding to the check that a search by name has found, if it found one,
/// is binding by name.
proof fn lemma_bind_found(
    graph: &WorldGraph,
    slots: Seq<Option<FillerItem>>,
    name: Seq<char>,
    item: FillerItem,
    found: Option<usize>,
)
    requires
        found is Some <==> graph.has_name(name),
        found matches Some(c) ==> c < graph.checks@.len() && c == graph.named(name),
    ensures
        bind_named(graph, slots, name, item) == match found {
            Some(c) if c < slots.len() => slots.update(c as int, Some(item)),
            _ => slots,
        },
{
    reveal(is_named);
    let wanted = match found {
        Some(c) if c < slots.len() => slots.update(c as int, Some(item)),
        _ => slots,
    };
    assert(bind_named(graph, slots, name, item) =~= wanted);
}

/// The tags other than `item`.
pub open spec fn is_not(item: FillerItem) -> spec_fn(FillerItem) -> bool {
    |other: FillerItem| other != item
}

/// The pool without the copies of the item.
pub open spec fn without(pool: Seq<FillerItem>, item: FillerItem) -> Seq<FillerItem> {
    pool.filter(is_not(item))
}

/// Takes every copy of the item out of the pool.
pub fn remove_item(pool: &mut Vec<FillerItem>, item: FillerItem)
    ensures
        final(pool)@ == without(old(pool)@, item),
{
    let mut kept: Vec<FillerItem> = Vec::new();
    let mut i: usize = 0;
    proof {
        reveal(Seq::filter);
        assert(pool@.subrange(0, 0) =~= Seq::<FillerItem>::empty());
    }
    while i < pool.len()
        invariant
            i <= pool@.len(),
            kept@ == pool@.subrange(0, i as int).filter(is_not(item)),
        decreases pool@.len() - i,
    {
        let other = pool[i];
        proof {
            pool@.subrange(0, i as int).lemma_filter_push(other, is_not(item));
            assert(pool@.subrange(0, i as int).push(other) =~= pool@.subrange(0, i + 1));
        }
        if other != item {
            kept.push(other);
        }
        i += 1;
    }
    assert(pool@.subrange(0, pool@.len() as int) =~= pool@);
    *pool = kept;
}

/// Binds the item to the check with the name, whatever the check held, and
/// takes the item out of the pool. Where the world has no check with the
/// name, the item leaves the pool all the same.
pub fn place_static(
    graph: &WorldGraph,
    check_map: &mut CheckMap,
    pool: &mut Vec<FillerItem>,
    item: FillerItem,
    check_name: &str,
)
    ensures
        final(check_map)@ == bind_named(graph, old(check_map)@, check_name@, item),
        final(pool)@ == without(old(pool)@, item),
{
    let found = graph.find_check(check_name);
    proof {
        lemma_bind_found(graph, check_map@, check_name@, item, found);
    }
    match found {
        Some(check) => {
            if check < check_map.len() {
                check_map.insert(check, item);
            }
        },
        None => {},
    }
    remove_item(pool, item);
}

/// Binds the filler at `index` of the trash pool to the check with the
/// name, whatever the check held, and takes it out of the pool.
pub fn exclude_at(
    graph: &WorldGraph,
    check_name: &str,
    index: usize,
    check_map: &mut CheckMap,
    trash: &mut Vec<FillerItem>,
)
    requires
        index < old(trash)@.len(),
    ensures
        final(check_map)@ == bind_named(graph, old(check_map)@, check_name@, old(trash)@[index as int]),
        final(trash)@ == old(trash)@.remove(index as int),
{
    let item = trash.remove(index);
    let found = graph.find_check(check_name);
    proof {
        lemma_bind_found(graph, check_map@, check_name@, item, found);
    }
    match found {
        Some(check) => {
            if check < check_map.len() {
                check_map.insert(check, item);
            }
        },
        None => {},
    }
}

/// Leaves a check out of the game's logic: a filler drawn at random from
/// the trash pool is bound to it and leaves the pool. The answer is the
/// place that the filler had in the pool. With an empty pool nothing
/// changes and the answer is `OutOfTrash`.
pub fn exclude(
    graph: &WorldGraph,
    check_name: &str,
    rng: &mut StdRng,
    check_map: &mut CheckMap,
    trash: &mut Vec<FillerItem>,
) -> (r: Result<usize, FillError>)
    ensures
        r is Ok <==> old(trash)@.len() > 0,
        r matches Err(e) ==> e == FillError::OutOfTrash && final(check_map)@ == old(check_map)@
            && final(trash)@ == old(trash)@,
        r matches Ok(index) ==> index < old(trash)@.len() && final(trash)@ == old(trash)@.remove(
            index as int,
        ) && final(check_map)@ == bind_named(
            graph,
            old(check_map)@,
            check_name@,
            old(trash)@[index as int],
        ),
{
    if trash.len() == 0 {
        return Err(FillError::OutOfTrash);
    }
    let index = draw_below(rng, trash.len());
    exclude_at(graph, check_name, index, check_map, trash);
    Ok(index)
}

/// Binds the item to the check at `index` of the list.
pub fn place_item_at(item: FillerItem, checks: &Vec<usize>, index: usize, check_map: &mut CheckMap)
    requires
        index < checks@.len(),
        checks@[index as int] < old(check_map)@.len(),
    ensures
        final(check_map)@ == old(check_map)@.update(checks@[index as int] as int, Some(item)),
{
    check_map.insert(checks[index], item);
}

/// Binds the item to one of the listed checks, drawn at random, and says
/// which. With an empty list nothing is drawn or bound.
pub fn place_item_randomly(
    item: FillerItem,
    checks: &Vec<usize>,
    check_map: &mut CheckMap,
    rng: &mut StdRng,
) -> (r: Option<usize>)
    requires
        forall|i: int| 0 <= i < checks@.len() ==> (#[trigger] checks@[i]) < old(check_map)@.len(),
    ensures
        r is Some <==> checks@.len() > 0,
        r is None ==> final(check_map)@ == old(check_map)@,
        r matches Some(index) ==> index < checks@.len() && final(check_map)@ == old(check_map)@.update(
            checks@[index as int] as int,
            Some(item),
        ),
{
    if checks.len() == 0 {
        return None;
    }
    let index = draw_below(rng, checks.len());
    place_item_at(item, checks, index, check_map);
    Some(index)
}

} // verus!
