//! The kinds of check that the settings place items on ahead of the fill.

use crate::check_map::CheckMap;
use crate::filter::vacant;
use crate::item::FillerItem;
use crate::text::{begins_with, contains, occurs_in, same_text, starts_with};
use crate::world::WorldGraph;
use vstd::prelude::*;

verus! {

/// A kind of check that the settings place items on ahead of the fill.
#[derive(Clone, Copy, Debug, PartialEq, Eq, Structural)]
pub enum Spot {
    /// Inside the castle: the check named "Zelda" and those whose name
    /// begins with "[LC]".
    Castle,
    /// In the shop: the checks whose name begins with "Ravio", but for the
    /// sixth slot.
    Shop,
    /// Where a maiamai hides: the checks whose name begins with "[Mai]".
    Maiamai,
}

impl Spot {
    /// Whether a check with the name is of this kind.
    pub open spec fn holds(self, name: Seq<char>) -> bool {
        match self {
            Spot::Castle => name == "Zelda"@ || begins_with(name, "[LC]"@),
            Spot::Shop => begins_with(name, "Ravio"@) && !occurs_in(name, "6"@),
            Spot::Maiamai => begins_with(name, "[Mai]"@),
        }
    }

    /// Whether a check with the name is of this kind.
    pub fn matches(self, name: &str) -> (r: bool)
        ensures
            r == self.holds(name@),
    {
        match self {
            Spot::Castle => same_text(name, "Zelda") || starts_with(name, "[LC]"),
            Spot::Shop => starts_with(name, "Ravio") && !contains(name, "6"),
            Spot::Maiamai => starts_with(name, "[Mai]"),
        }
    }
}

/// The positions below `count`, in rising order.
pub open spec fn positions(count: nat) -> Seq<usize> {
    Seq::new(count, |i: int| i as usize)
}

/// The checks of a kind; with `only_vacant`, those of them that hold
/// nothing yet.
pub open spec fn is_spot(
    graph: &WorldGraph,
    slots: Seq<Option<FillerItem>>,
    spot: Spot,
    only_vacant: bool,
) -> spec_fn(usize) -> bool {
    |check: usize|
        check < graph.checks@.len() && spot.holds(graph.checks@[check as int].name@) && (only_vacant
            ==> vacant(graph, slots, check as int))
}

/// The checks of a kind, in the order of the world graph.
pub open spec fn spots(
    graph: &WorldGraph,
    slots: Seq<Option<FillerItem>>,
    spot: Spot,
    only_vacant: bool,
) -> Seq<usize> {
    positions(graph.checks@.len()).filter(is_spot(graph, slots, spot, only_vacant))
}

/// The checks of a kind, in the order of the world graph; with
/// `only_vacant`, those of them that hold nothing yet.
pub fn find_spots(graph: &WorldGraph, check_map: &CheckMap, spot: Spot, only_vacant: bool) -> (r: Vec<usize>)
    ensures
        r@ == spots(graph, check_map@, spot, only_vacant),
{
    let ghost keep = is_spot(graph, check_map@, spot, only_vacant);
    let ghost all = positions(graph.checks@.len());
    let mut r: Vec<usize> = Vec::new();
    let mut c: usize = 0;
    proof {
        reveal(Seq::filter);
        assert(all.subrange(0, 0) =~= Seq::<usize>::empty());
    }
    while c < graph.checks.len()
        invariant
            c <= graph.checks@.len(),
            keep == is_spot(graph, check_map@, spot, only_vacant),
            all == positions(graph.checks@.len()),
            r@ == all.subrange(0, c as int).filter(keep),
        decreases graph.checks@.len() - c,
    {
        proof {
            all.subrange(0, c as int).lemma_filter_push(c, keep);
            assert(all.subrange(0, c as int).push(c) =~= all.subrange(0, c + 1));
        }
        if spot.matches(graph.checks[c].get_name()) && (!only_vacant || (c < check_map.len()
            && check_map.get(c).is_none())) {
            r.push(c);
        }
        c += 1;
    }
    assert(all.subrange(0, all.len() as int) =~= all);
    r
}

/// Whether the list names, each once, checks of one kind that hold nothing.
pub open spec fn listed(graph: &WorldGraph, slots: Seq<Option<FillerItem>>, list: Seq<usize>, spot: Spot) -> bool {
    &&& list.no_duplicates()
    &&& forall|i: int|
        0 <= i < list.len() ==> vacant(graph, slots, (#[trigger] list[i]) as int) && spot.holds(
            graph.checks@[list[i] as int].name@,
        )
}

/// The positions below a bound that pass a test, listed by a filter, rise
/// strictly; each passes the test, and each that passes is listed.
proof fn lemma_filter_positions(count: nat, keep: spec_fn(usize) -> bool)
    requires
        count <= usize::MAX,
    ensures
        forall|i: int|
            0 <= i < positions(count).filter(keep).len() ==> (#[trigger] positions(count).filter(keep)[i])
                < count && keep(positions(count).filter(keep)[i]),
        forall|i: int, j: int|
            0 <= i < j < positions(count).filter(keep).len() ==> (#[trigger] positions(count).filter(
                keep,
            )[i]) < (#[trigger] positions(count).filter(keep)[j]),
        forall|c: usize| c < count && keep(c) ==> #[trigger] positions(count).filter(keep).contains(c),
    decreases count,
{
    reveal(Seq::filter);
    if count > 0 {
        let fewer = positions((count - 1) as nat);
        let all = positions(count);
        assert(all.drop_last() =~= fewer);
        lemma_filter_positions((count - 1) as nat, keep);
        let before = fewer.filter(keep);
        let after = all.filter(keep);
        let top = (count - 1) as usize;
        assert(all.last() == top);
        assert forall|c: usize| c < count && keep(c) implies #[trigger] after.contains(c) by {
            if c < count - 1 {
                assert(before.contains(c));
                let i = choose|i: int| 0 <= i < before.len() && before[i] == c;
                assert(after[i] == c);
            } else {
                assert(after[after.len() - 1] == c);
            }
        }
    }
}

/// The checks of a kind are listed once each, and where only vacant ones
/// were asked for, they hold nothing.
pub proof fn lemma_spots(graph: &WorldGraph, slots: Seq<Option<FillerItem>>, spot: Spot, only_vacant: bool)
    ensures
        spots(graph, slots, spot, only_vacant).no_duplicates(),
        forall|i: int|
            0 <= i < spots(graph, slots, spot, only_vacant).len() ==> {
                let c = #[trigger] spots(graph, slots, spot, only_vacant)[i];
                &&& c < graph.checks@.len()
                &&& spot.holds(graph.checks@[c as int].name@)
                &&& only_vacant ==> vacant(graph, slots, c as int)
            },
        forall|c: usize|
            c < graph.checks@.len() && spot.holds(graph.checks@[c as int].name@) && (only_vacant ==> vacant(
                graph,
                slots,
                c as int,
            )) ==> #[trigger] spots(graph, slots, spot, only_vacant).contains(c),
        only_vacant ==> listed(graph, slots, spots(graph, slots, spot, only_vacant), spot),
{
    assert(graph.checks@.len() == graph.checks.len());
    lemma_filter_positions(graph.checks@.len(), is_spot(graph, slots, spot, only_vacant));
}

/// A list of vacant checks of one kind stays one when an item is bound to
/// a check of no such kind.
pub proof fn lemma_listed_apart(
    graph: &WorldGraph,
    slots: Seq<Option<FillerItem>>,
    list: Seq<usize>,
    spot: Spot,
    check: int,
    item: FillerItem,
)
    requires
        listed(graph, slots, list, spot),
        0 <= check < graph.checks@.len(),
        check < slots.len(),
        !spot.holds(graph.checks@[check].name@),
    ensures
        listed(graph, slots.update(check, Some(item)), list, spot),
{
    let after = slots.update(check, Some(item));
    assert forall|i: int| 0 <= i < list.len() implies vacant(graph, after, (#[trigger] list[i]) as int)
        && spot.holds(graph.checks@[list[i] as int].name@) by {
        assert(vacant(graph, slots, list[i] as int));
        assert(spot.holds(graph.checks@[list[i] as int].name@));
        assert(list[i] as int != check);
    }
}

/// Whether a check of the kind holds the item.
pub open spec fn placed_on(graph: &WorldGraph, slots: Seq<Option<FillerItem>>, spot: Spot, item: FillerItem) -> bool {
    exists|c: int|
        0 <= c < graph.checks@.len() && c < slots.len() && spot.holds(graph.checks@[c].name@)
            && #[trigger] slots[c] == Some(item)
}

/// An item that lies on a check of the castle or of the shop lies there
/// still when checks of other kinds are bound.
pub proof fn lemma_placed_on_stays(
    graph: &WorldGraph,
    before: Seq<Option<FillerItem>>,
    after: Seq<Option<FillerItem>>,
    spot: Spot,
    item: FillerItem,
)
    requires
        placed_on(graph, before, spot, item),
        after.len() == before.len(),
        forall|c: int|
            0 <= c < before.len() && c < graph.checks@.len() && spot.holds(graph.checks@[c].name@)
                && before[c] is Some ==> #[trigger] after[c] == before[c],
    ensures
        placed_on(graph, after, spot, item),
{
    let c = choose|c: int|
        0 <= c < graph.checks@.len() && c < before.len() && spot.holds(graph.checks@[c].name@)
            && #[trigger] before[c] == Some(item);
    assert(after[c] == Some(item));
}

/// Whether a check of the kind that held nothing on the check map `before`
/// holds the item on the check map `after`.
pub open spec fn newly_on(
    graph: &WorldGraph,
    before: Seq<Option<FillerItem>>,
    after: Seq<Option<FillerItem>>,
    spot: Spot,
    item: FillerItem,
) -> bool {
    exists|c: int|
        0 <= c < graph.checks@.len() && c < before.len() && c < after.len() && spot.holds(
            graph.checks@[c].name@,
        ) && before[c] is None && #[trigger] after[c] == Some(item)
}

/// An item bound to a vacant check of a kind lies newly on a check of that
/// kind, whatever was bound to vacant checks before.
pub proof fn lemma_newly_on(
    graph: &WorldGraph,
    before: Seq<Option<FillerItem>>,
    mid: Seq<Option<FillerItem>>,
    check: int,
    spot: Spot,
    item: FillerItem,
)
    requires
        mid.len() == before.len(),
        forall|c: int| 0 <= c < before.len() && (#[trigger] before[c]) is Some ==> mid[c] == before[c],
        vacant(graph, mid, check),
        spot.holds(graph.checks@[check].name@),
    ensures
        newly_on(graph, before, mid.update(check, Some(item)), spot, item),
{
    let after = mid.update(check, Some(item));
    assert(before[check] is None);
    assert(after[check] == Some(item));
}

/// An item that lies newly on a check lies there still when only vacant
/// checks are bound.
pub proof fn lemma_newly_on_stays(
    graph: &WorldGraph,
    before: Seq<Option<FillerItem>>,
    mid: Seq<Option<FillerItem>>,
    after: Seq<Option<FillerItem>>,
    spot: Spot,
    item: FillerItem,
)
    requires
        newly_on(graph, before, mid, spot, item),
        after.len() == mid.len(),
        forall|c: int|
            0 <= c < mid.len() && c < graph.checks@.len() && spot.holds(graph.checks@[c].name@)
                && mid[c] is Some ==> #[trigger] after[c] == mid[c],
    ensures
        newly_on(graph, before, after, spot, item),
        placed_on(graph, after, spot, item),
{
    let c = choose|c: int|
        0 <= c < graph.checks@.len() && c < before.len() && c < mid.len() && spot.holds(graph.checks@[c].name@)
            && before[c] is None && #[trigger] mid[c] == Some(item);
    assert(after[c] == Some(item));
}

} // verus!
