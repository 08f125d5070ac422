//! Which checks may take an item.

use crate::check_map::CheckMap;
use crate::item::{dungeon_of, is_dungeon_item, is_dungeon_prize, FillerItem};
use crate::text::{begins_with, contains, occurs_in, starts_with};
use crate::world::WorldGraph;
use vstd::prelude::*;

verus! {

/// Whether the check is of a kind that may hold the item: a dungeon prize
/// lies only on a check whose name contains "Prize", a key or a compass
/// only on a check whose name begins with the tag of its dungeon.
pub open spec fn fits(graph: &WorldGraph, check: int, item: FillerItem) -> bool {
    &&& item.dungeon_prize() ==> occurs_in(graph.checks@[check].name@, "Prize"@)
    &&& item.dungeon() is Some ==> begins_with(graph.checks@[check].name@, item.dungeon()->0.tag())
}

/// Whether the check is a check of the world that holds nothing yet.
pub open spec fn vacant(graph: &WorldGraph, slots: Seq<Option<FillerItem>>, check: int) -> bool {
    &&& 0 <= check < graph.checks@.len()
    &&& check < slots.len()
    &&& slots[check] is None
}

/// The checks that hold nothing yet.
pub open spec fn is_vacant(graph: &WorldGraph, slots: Seq<Option<FillerItem>>) -> spec_fn(usize) -> bool {
    |check: usize| vacant(graph, slots, check as int)
}

/// The checks whose name contains "Prize".
pub open spec fn is_prize_check(graph: &WorldGraph) -> spec_fn(usize) -> bool {
    |check: usize| check < graph.checks@.len() && occurs_in(graph.checks@[check as int].name@, "Prize"@)
}

/// The checks whose name begins with the given characters.
pub open spec fn has_prefix(graph: &WorldGraph, prefix: Seq<char>) -> spec_fn(usize) -> bool {
    |check: usize| check < graph.checks@.len() && begins_with(graph.checks@[check as int].name@, prefix)
}

/// The checks that the item may be placed on: they hold nothing yet and
/// are of a kind that may hold the item.
pub open spec fn is_candidate(
    graph: &WorldGraph,
    slots: Seq<Option<FillerItem>>,
    item: FillerItem,
) -> spec_fn(usize) -> bool {
    |check: usize| vacant(graph, slots, check as int) && fits(graph, check as int, item)
}

/// Whether every change from `before` to `after` bound an item to a check
/// of a kind that may hold it.
pub open spec fn fitly_changed(
    graph: &WorldGraph,
    before: Seq<Option<FillerItem>>,
    after: Seq<Option<FillerItem>>,
) -> bool {
    &&& after.len() == before.len()
    &&& forall|c: int|
        0 <= c < before.len() && (#[trigger] after[c]) != before[c] ==> after[c] is Some && fits(
            graph,
            c,
            after[c]->0,
        )
}

/// The checks of the list that hold nothing yet, in the list's order.
fn filter_vacant(graph: &WorldGraph, checks: &Vec<usize>, check_map: &CheckMap) -> (r: Vec<usize>)
    ensures
        r@ == checks@.filter(is_vacant(graph, check_map@)),
{
    let mut r: Vec<usize> = Vec::new();
    let mut i: usize = 0;
    proof {
        reveal(Seq::filter);
        assert(checks@.subrange(0, 0) =~= Seq::<usize>::empty());
    }
    while i < checks.len()
        invariant
            i <= checks@.len(),
            r@ == checks@.subrange(0, i as int).filter(is_vacant(graph, check_map@)),
        decreases checks@.len() - i,
    {
        let c = checks[i];
        proof {
            checks@.subrange(0, i as int).lemma_filter_push(c, is_vacant(graph, check_map@));
            assert(checks@.subrange(0, i as int).push(c) =~= checks@.subrange(0, i + 1));
        }
        if c < graph.checks.len() && c < check_map.len() && check_map.get(c).is_none() {
            r.push(c);
        }
        i += 1;
    }
    assert(checks@.subrange(0, checks@.len() as int) =~= checks@);
    r
}

/// The checks of the list whose name contains "Prize", in the list's order.
pub fn filter_dungeon_prize_checks(graph: &WorldGraph, eligible_checks: &Vec<usize>) -> (r: Vec<usize>)
    ensures
        r@ == eligible_checks@.filter(is_prize_check(graph)),
{
    let mut r: Vec<usize> = Vec::new();
    let mut i: usize = 0;
    proof {
        reveal(Seq::filter);
        assert(eligible_checks@.subrange(0, 0) =~= Seq::<usize>::empty());
    }
    while i < eligible_checks.len()
        invariant
            i <= eligible_checks@.len(),
            r@ == eligible_checks@.subrange(0, i as int).filter(is_prize_check(graph)),
        decreases eligible_checks@.len() - i,
    {
        let c = eligible_checks[i];
        proof {
            eligible_checks@.subrange(0, i as int).lemma_filter_push(c, is_prize_check(graph));
            assert(eligible_checks@.subrange(0, i as int).push(c) =~= eligible_checks@.subrange(0, i + 1));
        }
        if c < graph.checks.len() && contains(graph.checks[c].get_name(), "Prize") {
            r.push(c);
        }
        i += 1;
    }
    assert(eligible_checks@.subrange(0, eligible_checks@.len() as int) =~= eligible_checks@);
    r
}

/// The checks of the list that lie in the dungeon of a key or a compass:
/// those whose name begins with the dungeon's tag, in the list's order.
pub fn filter_dungeon_checks(graph: &WorldGraph, item: FillerItem, eligible_checks: &Vec<usize>) -> (r: Vec<
    usize,
>)
    requires
        item.dungeon() is Some,
    ensures
        r@ == eligible_checks@.filter(has_prefix(graph, item.dungeon()->0.tag())),
{
    let dungeon = dungeon_of(item).unwrap();
    let prefix = dungeon.prefix();
    let ghost keep = has_prefix(graph, item.dungeon()->0.tag());
    let mut r: Vec<usize> = Vec::new();
    let mut i: usize = 0;
    proof {
        reveal(Seq::filter);
        assert(eligible_checks@.subrange(0, 0) =~= Seq::<usize>::empty());
    }
    while i < eligible_checks.len()
        invariant
            i <= eligible_checks@.len(),
            prefix@ == item.dungeon()->0.tag(),
            keep == has_prefix(graph, item.dungeon()->0.tag()),
            r@ == eligible_checks@.subrange(0, i as int).filter(keep),
        decreases eligible_checks@.len() - i,
    {
        let c = eligible_checks[i];
        proof {
            eligible_checks@.subrange(0, i as int).lemma_filter_push(c, keep);
            assert(eligible_checks@.subrange(0, i as int).push(c) =~= eligible_checks@.subrange(0, i + 1));
        }
        if c < graph.checks.len() && starts_with(graph.checks[c].get_name(), prefix) {
            r.push(c);
        }
        i += 1;
    }
    assert(eligible_checks@.subrange(0, eligible_checks@.len() as int) =~= eligible_checks@);
    r
}

/// A list filtered twice is the list filtered by both tests at once.
proof fn lemma_filter_twice(
    list: Seq<usize>,
    first: spec_fn(usize) -> bool,
    second: spec_fn(usize) -> bool,
    both: spec_fn(usize) -> bool,
)
    requires
        forall|c: usize| #[trigger] both(c) == (first(c) && second(c)),
    ensures
        list.filter(first).filter(second) == list.filter(both),
    decreases list.len(),
{
    reveal(Seq::filter);
    if list.len() > 0 {
        lemma_filter_twice(list.drop_last(), first, second, both);
        list.drop_last().filter(first).lemma_filter_push(list.last(), second);
    }
}

/// The checks of the list that the item may be placed on, in the list's
/// order: those that hold nothing yet and, for a dungeon prize, a key or a
/// compass, are of the kind that may hold it.
pub fn filter_checks(graph: &WorldGraph, item: FillerItem, checks: &Vec<usize>, check_map: &CheckMap) -> (r:
    Vec<usize>)
    ensures
        r@ == checks@.filter(is_candidate(graph, check_map@, item)),
{
    let mut filtered_checks = filter_vacant(graph, checks, check_map);
    let ghost vacant_only = is_vacant(graph, check_map@);
    let ghost wanted = is_candidate(graph, check_map@, item);
    if is_dungeon_prize(item) {
        proof {
            item.lemma_dungeon_local();
            lemma_filter_twice(checks@, vacant_only, is_prize_check(graph), wanted);
        }
        filtered_checks = filter_dungeon_prize_checks(graph, &filtered_checks);
    } else if is_dungeon_item(item) {
        proof {
            lemma_filter_twice(checks@, vacant_only, has_prefix(graph, item.dungeon()->0.tag()), wanted);
        }
        filtered_checks = filter_dungeon_checks(graph, item, &filtered_checks);
    } else {
        proof {
            lemma_filter_twice(checks@, vacant_only, |c: usize| true, wanted);
            let once = checks@.filter(vacant_only);
            once.filter_lemma(|c: usize| true);
            assert(once.filter(|c: usize| true) =~= once) by {
                lemma_filter_all(once);
            }
        }
    }
    filtered_checks
}

/// A filter that keeps everything changes nothing.
proof fn lemma_filter_all(list: Seq<usize>)
    ensures
        list.filter(|c: usize| true) == list,
    decreases list.len(),
{
    reveal(Seq::filter);
    if list.len() > 0 {
        lemma_filter_all(list.drop_last());
        assert(list.drop_last().push(list.last()) =~= list);
    }
}

/// Whether one of the listed checks holds nothing yet.
pub fn exist_empty_reachable_check(checks: &Vec<usize>, check_map: &CheckMap) -> (r: bool)
    ensures
        r == exists|i: int|
            0 <= i < checks@.len() && (#[trigger] checks@[i]) < check_map@.len()
                && check_map@[checks@[i] as int] is None,
{
    let mut i: usize = 0;
    while i < checks.len()
        invariant
            i <= checks@.len(),
            forall|k: int|
                0 <= k < i ==> !((#[trigger] checks@[k]) < check_map@.len()
                    && check_map@[checks@[k] as int] is None),
        decreases checks@.len() - i,
    {
        let c = checks[i];
        if c < check_map.len() && check_map.get(c).is_none() {
            return true;
        }
        i += 1;
    }
    false
}

} // verus!
