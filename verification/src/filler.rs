//! The fill: the check map of a world is made, the progression items are
//! placed where the search still reaches without them, and the filler
//! takes what is left.

use crate::account::{in_pool, in_play};
use crate::check_map::{
    all_bound, bound_items, empty_count, keeps, lemma_bind_empty, lemma_bound_len, lemma_empty_count_zero,
    lemma_fewer_empty,
    lemma_no_items, lemma_same_size, CheckMap,
};
use crate::error::FillError;
use crate::filter::{
    exist_empty_reachable_check, filter_checks, fitly_changed, fits, is_candidate, vacant,
};
use crate::game::{convert, game_item, Item};
use crate::item::FillerItem;
use crate::names::{fixed_items, fixed_names};
use crate::binding::{all_named, hold_from, holds_at, lemma_fitly_twice, lemma_named, lemma_trash_fit, only_trash};
use crate::exclusions::{check_exclusions, handle_exclusions};
use crate::placement::{is_named, place_item_at};
use crate::spots::{is_spot, lemma_spots, spots, Spot};
use crate::pools::{
    get_item_pools, lemma_ordered_permutes, lemma_permutes_same_set, lemma_pool_has, lemma_trash_items,
    progression_pool, trash_items,
};
use crate::preplace::{
    ahead_error, lemma_fixed_items_differ, lemma_shelves_stay, maiamai_hold, preplace_items, room_ahead,
    shelves_hold,
    shop_good, stocked,
};
use crate::regions::LocationInfo;
use crate::rng::{draw_below, seeded};
use crate::search::{
    assumed, assumed_base, assumed_search, lemma_assumed_settled, searched, settled,
};
use crate::settings::{Logic, Seed, Settings};
use crate::world::WorldGraph;
use rand::rngs::StdRng;
use vstd::prelude::*;
use vstd::seq_lib::{to_multiset_build, to_multiset_remove};

verus! {

/// The check map of a world before anything is placed: each check holds
/// the item that the world fixes at it, if any.
pub open spec fn quest_slots(graph: &WorldGraph) -> Seq<Option<FillerItem>> {
    Seq::new(graph.checks@.len(), |c: int| graph.checks@[c].quest)
}

/// Makes the check map of a world, with the items that the world fixes at
/// its checks. Two checks of the same name are an error.
pub fn prefill_check_map(graph: &WorldGraph) -> (r: Result<CheckMap, FillError>)
    ensures
        r is Ok <==> graph.names_distinct(),
        r matches Ok(check_map) ==> check_map@ == quest_slots(graph),
        r matches Err(e) ==> e matches FillError::DuplicateCheck(name) && exists|i: int, j: int|
            0 <= i < j < graph.checks@.len() && (#[trigger] graph.checks@[i]).name@ == name@ && (
            #[trigger] graph.checks@[j]).name@ == name@,
{
    let mut slots: Vec<Option<FillerItem>> = Vec::new();
    let mut c: usize = 0;
    while c < graph.checks.len()
        invariant
            c <= graph.checks@.len(),
            slots@.len() == c,
            forall|b: int| 0 <= b < c ==> slots@[b] == (#[trigger] graph.checks@[b]).quest,
            forall|i: int, j: int|
                0 <= i < j < c ==> (#[trigger] graph.checks@[i]).name@ != (#[trigger] graph.checks@[j]).name@,
        decreases graph.checks@.len() - c,
    {
        let mut b: usize = 0;
        while b < c
            invariant
                b <= c,
                c < graph.checks@.len(),
                forall|i: int|
                    0 <= i < b ==> (#[trigger] graph.checks@[i]).name@ != graph.checks@[c as int].name@,
            decreases c - b,
        {
            if graph.checks[b].name == graph.checks[c].name {
                return Err(FillError::DuplicateCheck(graph.checks[c].name.clone()));
            }
            b += 1;
        }
        slots.push(graph.checks[c].get_quest());
        c += 1;
    }
    assert(slots@ =~= quest_slots(graph));
    Ok(CheckMap { slots })
}

/// A list of positions below a bound that names none twice and is as long
/// as the bound names every position below it.
proof fn lemma_full_list(list: Seq<usize>, bound: nat)
    requires
        list.no_duplicates(),
        list.len() == bound,
        forall|i: int| 0 <= i < list.len() ==> (#[trigger] list[i]) < bound,
    ensures
        forall|c: usize| c < bound ==> list.contains(c),
    decreases bound,
{
    if bound > 0 {
        let top = (bound - 1) as usize;
        if list.contains(top) {
            let at = choose|at: int| 0 <= at < list.len() && list[at] == top;
            let rest = list.remove(at);
            assert forall|i: int| 0 <= i < rest.len() implies (#[trigger] rest[i]) < bound - 1 by {
                if i < at {
                    assert(rest[i] == list[i]);
                } else {
                    assert(rest[i] == list[i + 1]);
                }
            }
            assert(rest.no_duplicates()) by {
                assert forall|i: int, j: int| 0 <= i < rest.len() && 0 <= j < rest.len() && i != j implies rest[i]
                    != rest[j] by {
                    let a = if i < at { i } else { i + 1 };
                    let b = if j < at { j } else { j + 1 };
                    assert(rest[i] == list[a] && rest[j] == list[b]);
                }
            }
            lemma_full_list(rest, (bound - 1) as nat);
            assert forall|c: usize| c < bound implies list.contains(c) by {
                if c < bound - 1 {
                    assert(rest.contains(c));
                    let i = choose|i: int| 0 <= i < rest.len() && rest[i] == c;
                    let a = if i < at { i } else { i + 1 };
                    assert(list[a] == c);
                } else {
                    assert(list[at] == c);
                }
            }
        } else {
            let rest = list.drop_last();
            assert forall|i: int| 0 <= i < rest.len() implies (#[trigger] rest[i]) < bound - 1 by {
                assert(rest[i] == list[i]);
                assert(list.contains(list[i]));
            }
            lemma_full_list(rest, (bound - 1) as nat);
            let last = list.last();
            assert(list.contains(last));
            assert(rest.contains(last));
            let i = choose|i: int| 0 <= i < rest.len() && rest[i] == last;
            assert(list[i] == list[list.len() - 1]);
        }
    }
}

/// Whether every check of the world can be taken in the end while the
/// items of the pool are still to be placed.
pub open spec fn covers_all(
    graph: &WorldGraph,
    slots: Seq<Option<FillerItem>>,
    pool: Seq<FillerItem>,
    logic: Logic,
) -> bool {
    graph.opens_all(assumed(graph, slots, assumed_base(graph, pool), logic), logic)
}

/// Makes sure that with the whole progression pool in hand every check of
/// the world can be taken: the assumed search on a fresh check map has to
/// list as many checks as the world has.
pub fn verify_all_locations_accessible(
    graph: &WorldGraph,
    progression_pool: &Vec<FillerItem>,
    settings: &Settings,
) -> (r: Result<(), FillError>)
    requires
        graph.wf(),
    ensures
        r is Ok <==> graph.names_distinct() && covers_all(
            graph,
            quest_slots(graph),
            progression_pool@,
            settings.logic,
        ),
        r matches Err(e) ==> if graph.names_distinct() {
            e matches FillError::Unreachable { reachable, total } && total == graph.checks@.len()
                && reachable < total && reachable == crate::search::searched(
                graph,
                assumed(graph, quest_slots(graph), assumed_base(graph, progression_pool@), settings.logic),
                settings.logic,
            ).len()
        } else {
            e is DuplicateCheck
        },
{
    let check_map = match prefill_check_map(graph) {
        Ok(check_map) => check_map,
        Err(e) => {
            return Err(e);
        },
    };
    let reachable_checks = assumed_search(graph, progression_pool, &check_map, settings);
    let ghost held = assumed(graph, check_map@, assumed_base(graph, progression_pool@), settings.logic);
    let total = graph.checks.len();
    proof {
        if reachable_checks@.len() >= total {
            let first = reachable_checks@.subrange(0, total as int);
            assert forall|i: int| 0 <= i < first.len() implies (#[trigger] first[i]) < total by {
                assert(graph.opens(reachable_checks@[i] as int, held, settings.logic));
            }
            lemma_full_list(first, total as nat);
            if reachable_checks@.len() > total {
                let extra = reachable_checks@[total as int];
                assert(graph.opens(extra as int, held, settings.logic));
                assert(first.contains(extra));
                let i = choose|i: int| 0 <= i < first.len() && first[i] == extra;
                assert(reachable_checks@[i] == reachable_checks@[total as int]);
            }
            assert forall|c: int| 0 <= c < graph.checks@.len() implies #[trigger] graph.opens(
                c,
                held,
                settings.logic,
            ) by {
                assert(first.contains(c as usize));
                let i = choose|i: int| 0 <= i < first.len() && first[i] == c as usize;
                assert(graph.opens(reachable_checks@[i] as int, held, settings.logic));
            }
        } else if graph.opens_all(held, settings.logic) {
            let all = Seq::new(total as nat, |i: int| i as usize);
            assert forall|c: usize| c < total implies reachable_checks@.contains(c) by {
                assert(graph.opens(c as int, held, settings.logic));
            }
            lemma_holds_all_is_long(reachable_checks@, total as nat);
        }
    }
    if reachable_checks.len() != total {
        return Err(FillError::Unreachable { reachable: reachable_checks.len(), total });
    }
    Ok(())
}

/// A list that names every position below a bound is at least as long as
/// the bound.
proof fn lemma_holds_all_is_long(list: Seq<usize>, bound: nat)
    requires
        forall|c: usize| c < bound ==> list.contains(c),
        bound <= usize::MAX,
    ensures
        list.len() >= bound,
    decreases bound,
{
    if bound > 0 {
        let top = (bound - 1) as usize;
        assert(list.contains(top));
        let at = choose|at: int| 0 <= at < list.len() && list[at] == top;
        let rest = list.remove(at);
        assert forall|c: usize| c < bound - 1 implies rest.contains(c) by {
            assert(list.contains(c));
            let i = choose|i: int| 0 <= i < list.len() && list[i] == c;
            if i < at {
                assert(rest[i] == c);
            } else {
                assert(rest[i - 1] == c);
            }
        }
        lemma_holds_all_is_long(rest, (bound - 1) as nat);
    }
}

/// Placing the item that was next in the pool on a vacant check that can
/// be taken without it loses nothing: whatever could be held in the end
/// before can be held in the end afterwards.
pub proof fn lemma_placement_keeps_reach(
    graph: &WorldGraph,
    slots: Seq<Option<FillerItem>>,
    rest: Seq<FillerItem>,
    item: FillerItem,
    check: int,
    logic: Logic,
)
    requires
        0 <= check < slots.len(),
        slots[check] is None,
        graph.opens(check, assumed(graph, slots, assumed_base(graph, rest), logic), logic),
    ensures
        assumed(graph, slots, assumed_base(graph, seq![item] + rest), logic).subset_of(
            assumed(graph, slots.update(check, Some(item)), assumed_base(graph, rest), logic),
        ),
{
    let after = slots.update(check, Some(item));
    let small = assumed_base(graph, rest);
    let large = assumed_base(graph, seq![item] + rest);
    let without = assumed(graph, slots, small, logic);
    let end = assumed(graph, after, small, logic);
    lemma_assumed_settled(graph, after, small, logic);
    assert(settled(graph, slots, end, logic)) by {
        assert forall|c: int|
            0 <= c < slots.len() && #[trigger] graph.opens(c, end, logic) && slots[c] is Some implies end.contains(
            slots[c]->0,
        ) by {
            assert(after[c] == slots[c]);
        }
    }
    assert(without.subset_of(end));
    graph.lemma_opens_monotone(check, without, end, logic);
    assert(after[check] == Some(item));
    assert(end.contains(item));
    assert(large.subset_of(end)) by {
        assert forall|x: FillerItem| large.contains(x) implies end.contains(x) by {
            if (seq![item] + rest).contains(x) {
                let i = choose|i: int| 0 <= i < (seq![item] + rest).len() && (seq![item] + rest)[i] == x;
                if i > 0 {
                    assert(rest[i - 1] == x);
                    assert(small.contains(x));
                }
            } else {
                assert(small.contains(x));
            }
        }
    }
}

/// Binding more checks loses nothing: whatever could be taken in the end
/// before can be taken in the end afterwards.
pub proof fn lemma_keeps_covers(
    graph: &WorldGraph,
    before: Seq<Option<FillerItem>>,
    after: Seq<Option<FillerItem>>,
    pool: Seq<FillerItem>,
    logic: Logic,
)
    requires
        keeps(before, after),
        covers_all(graph, before, pool, logic),
    ensures
        covers_all(graph, after, pool, logic),
{
    let base = assumed_base(graph, pool);
    let small = assumed(graph, before, base, logic);
    let large = assumed(graph, after, base, logic);
    lemma_assumed_settled(graph, after, base, logic);
    assert(settled(graph, before, large, logic)) by {
        assert forall|c: int|
            0 <= c < before.len() && #[trigger] graph.opens(c, large, logic) && before[c] is Some implies large.contains(
            before[c]->0,
        ) by {
            assert(after[c] == before[c]);
        }
    }
    assert(small.subset_of(large));
    assert forall|c: int| 0 <= c < graph.checks@.len() implies #[trigger] graph.opens(c, large, logic) by {
        assert(graph.opens(c, small, logic));
        graph.lemma_opens_monotone(c, small, large, logic);
    }
}

/// The checks that an item may be bound to at its turn: the checks that
/// the assumed search lists without it, while the rest of the pool is taken
/// as held, that hold nothing yet and may hold the item, in the order of the
/// search.
pub open spec fn candidates(
    graph: &WorldGraph,
    slots: Seq<Option<FillerItem>>,
    rest: Seq<FillerItem>,
    item: FillerItem,
    logic: Logic,
) -> Seq<usize> {
    searched(graph, assumed(graph, slots, assumed_base(graph, rest), logic), logic).filter(
        is_candidate(graph, slots, item),
    )
}

/// The check map after the turn of an item: the item is bound to the
/// candidate that was drawn; without a candidate nothing changes.
pub open spec fn turn(
    graph: &WorldGraph,
    slots: Seq<Option<FillerItem>>,
    rest: Seq<FillerItem>,
    item: FillerItem,
    logic: Logic,
    draw: int,
) -> Seq<Option<FillerItem>> {
    let list = candidates(graph, slots, rest, item, logic);
    if list.len() == 0 {
        slots
    } else {
        slots.update(list[draw] as int, Some(item))
    }
}

/// The check map after as many turns as there are draws: the items of the
/// pool have their turn one after the other, from the first on.
pub open spec fn filled_by(
    graph: &WorldGraph,
    slots: Seq<Option<FillerItem>>,
    pool: Seq<FillerItem>,
    logic: Logic,
    draws: Seq<int>,
) -> Seq<Option<FillerItem>>
    decreases draws.len(),
{
    if draws.len() == 0 {
        slots
    } else {
        let t = draws.len() - 1;
        turn(
            graph,
            filled_by(graph, slots, pool, logic, draws.drop_last()),
            pool.skip(t + 1),
            pool[t],
            logic,
            draws.last(),
        )
    }
}

/// The items that were left out in those turns: those that had no
/// candidate at their turn, in the order of the pool.
pub open spec fn skipped_by(
    graph: &WorldGraph,
    slots: Seq<Option<FillerItem>>,
    pool: Seq<FillerItem>,
    logic: Logic,
    draws: Seq<int>,
) -> Seq<FillerItem>
    decreases draws.len(),
{
    if draws.len() == 0 {
        Seq::empty()
    } else {
        let t = draws.len() - 1;
        let before = filled_by(graph, slots, pool, logic, draws.drop_last());
        let earlier = skipped_by(graph, slots, pool, logic, draws.drop_last());
        if candidates(graph, before, pool.skip(t + 1), pool[t], logic).len() == 0 {
            earlier.push(pool[t])
        } else {
            earlier
        }
    }
}

/// The checks that the fill looks at after those turns to see whether it
/// goes on: what the search of the last turn listed, before that turn's
/// item was bound; before the first turn, what the search lists with the
/// whole pool in hand.
pub open spec fn seen_by(
    graph: &WorldGraph,
    slots: Seq<Option<FillerItem>>,
    pool: Seq<FillerItem>,
    logic: Logic,
    draws: Seq<int>,
) -> Seq<usize> {
    if draws.len() == 0 {
        searched(graph, assumed(graph, slots, assumed_base(graph, pool), logic), logic)
    } else {
        searched(
            graph,
            assumed(
                graph,
                filled_by(graph, slots, pool, logic, draws.drop_last()),
                assumed_base(graph, pool.skip(draws.len() as int)),
                logic,
            ),
            logic,
        )
    }
}

/// Whether the fill goes on after those turns: the pool has an item left,
/// and one of the checks that the fill looks at holds nothing.
pub open spec fn goes_on(
    graph: &WorldGraph,
    slots: Seq<Option<FillerItem>>,
    pool: Seq<FillerItem>,
    logic: Logic,
    draws: Seq<int>,
) -> bool {
    let seen = seen_by(graph, slots, pool, logic, draws);
    let now = filled_by(graph, slots, pool, logic, draws);
    &&& draws.len() < pool.len()
    &&& exists|i: int| 0 <= i < seen.len() && (#[trigger] seen[i]) < now.len() && now[seen[i] as int] is None
}

/// Whether turn `t` was due and its draw a position of the candidates,
/// where there were any.
pub open spec fn turn_due(
    graph: &WorldGraph,
    slots: Seq<Option<FillerItem>>,
    pool: Seq<FillerItem>,
    logic: Logic,
    draws: Seq<int>,
    t: int,
) -> bool {
    let list = candidates(
        graph,
        filled_by(graph, slots, pool, logic, draws.take(t)),
        pool.skip(t + 1),
        pool[t],
        logic,
    );
    &&& goes_on(graph, slots, pool, logic, draws.take(t))
    &&& list.len() > 0 ==> 0 <= draws[t] < list.len()
}

/// Whether the draws are those of a whole fill: each turn was due, and
/// after the last the fill does not go on.
pub open spec fn fill_draws(
    graph: &WorldGraph,
    slots: Seq<Option<FillerItem>>,
    pool: Seq<FillerItem>,
    logic: Logic,
    draws: Seq<int>,
) -> bool {
    &&& draws.len() <= pool.len()
    &&& forall|t: int| 0 <= t < draws.len() ==> #[trigger] turn_due(graph, slots, pool, logic, draws, t)
    &&& !goes_on(graph, slots, pool, logic, draws)
}

/// The turn of an item, for the index drawn: the item is bound to the
/// candidate at the index; without a candidate the check map stays as it
/// is and the item joins those that were left out.
pub fn place_or_skip(
    item: FillerItem,
    candidates: &Vec<usize>,
    index: usize,
    check_map: &mut CheckMap,
    skipped: &mut Vec<FillerItem>,
)
    requires
        forall|i: int| 0 <= i < candidates@.len() ==> (#[trigger] candidates@[i]) < old(check_map)@.len(),
        candidates@.len() > 0 ==> index < candidates@.len(),
    ensures
        candidates@.len() == 0 ==> final(check_map)@ == old(check_map)@ && final(skipped)@ == old(
            skipped,
        )@.push(item),
        candidates@.len() > 0 ==> final(check_map)@ == old(check_map)@.update(
            candidates@[index as int] as int,
            Some(item),
        ) && final(skipped)@ == old(skipped)@,
{
    if candidates.len() == 0 {
        skipped.push(item);
    } else {
        place_item_at(item, candidates, index, check_map);
    }
}

/// Whether a fill has come to a halt: of the checks that the assumed search
/// listed on the check map `seen`, with the items of the pool still to be
/// placed, none is empty on the check map `now`.
pub open spec fn stuck(
    graph: &WorldGraph,
    seen: Seq<Option<FillerItem>>,
    now: Seq<Option<FillerItem>>,
    pool: Seq<FillerItem>,
    logic: Logic,
) -> bool {
    let listed = searched(graph, assumed(graph, seen, assumed_base(graph, pool), logic), logic);
    forall|i: int| 0 <= i < listed.len() && (#[trigger] listed[i]) < now.len() ==> now[listed[i] as int] is Some
}

/// Places the progression items in a completable manner.
///
/// As long as the pool has items and one of the checks last found holds
/// nothing, the first item leaves the pool; the assumed search finds the
/// checks that can be taken without it, while every item still in the pool
/// is taken as held; and the item is bound to one of those that may hold
/// it, drawn at random: one draw for each item that is placed. An item for
/// which there is no such check is not placed, and nothing is drawn for it:
/// the items that were left out so are the answer. The fill ends
/// with an empty pool, or stuck: on the checks that the last search
/// listed, before the last item was bound.
pub fn assumed_fill(
    graph: &WorldGraph,
    rng: &mut StdRng,
    items_owned: &mut Vec<FillerItem>,
    check_map: &mut CheckMap,
    settings: &Settings,
) -> (skipped: Vec<FillerItem>)
    requires
        graph.wf(),
        old(check_map)@.len() == graph.checks@.len(),
    ensures
        keeps(old(check_map)@, final(check_map)@),
        fitly_changed(graph, old(check_map)@, final(check_map)@),
        final(items_owned)@.len() <= old(items_owned)@.len(),
        final(items_owned)@ == old(items_owned)@.skip(
            old(items_owned)@.len() - final(items_owned)@.len(),
        ),
        bound_items(final(check_map)@).add(final(items_owned)@.to_multiset()).add(skipped@.to_multiset())
            == bound_items(old(check_map)@).add(old(items_owned)@.to_multiset()),
        skipped@.len() == 0 && covers_all(graph, old(check_map)@, old(items_owned)@, settings.logic)
            ==> covers_all(graph, final(check_map)@, final(items_owned)@, settings.logic),
        final(items_owned)@.len() == 0 || exists|last: Seq<Option<FillerItem>>|
            keeps(old(check_map)@, last) && keeps(last, final(check_map)@) && #[trigger] stuck(
                graph,
                last,
                final(check_map)@,
                final(items_owned)@,
                settings.logic,
            ),
        exists|draws: Seq<int>|
            {
                &&& #[trigger] fill_draws(graph, old(check_map)@, old(items_owned)@, settings.logic, draws)
                &&& final(check_map)@ == filled_by(
                    graph,
                    old(check_map)@,
                    old(items_owned)@,
                    settings.logic,
                    draws,
                )
                &&& skipped@ == skipped_by(graph, old(check_map)@, old(items_owned)@, settings.logic, draws)
                &&& final(items_owned)@ == old(items_owned)@.skip(draws.len() as int)
            },
{
    let ghost logic = settings.logic;
    let ghost slots0 = check_map@;
    let ghost pool0 = items_owned@;
    let ghost mut last = check_map@;
    let ghost mut draws: Seq<int> = Seq::empty();
    let mut skipped: Vec<FillerItem> = Vec::new();
    let mut reachable_checks = assumed_search(graph, items_owned, check_map, settings);
    proof {
        assert(pool0.skip(0) =~= pool0);
        lemma_no_items(skipped@);
        assert(bound_items(slots0).add(pool0.to_multiset()).add(skipped@.to_multiset()) =~= bound_items(
            slots0,
        ).add(pool0.to_multiset()));
    }
    proof {
        assert(pool0.skip(0) =~= pool0);
    }
    while exist_empty_reachable_check(&reachable_checks, check_map) && items_owned.len() > 0
        invariant
            graph.wf(),
            logic == settings.logic,
            check_map@.len() == graph.checks@.len(),
            keeps(slots0, check_map@),
            fitly_changed(graph, slots0, check_map@),
            items_owned@.len() <= pool0.len(),
            items_owned@ == pool0.skip(pool0.len() - items_owned@.len()),
            bound_items(check_map@).add(items_owned@.to_multiset()).add(skipped@.to_multiset())
                == bound_items(slots0).add(pool0.to_multiset()),
            skipped@.len() == 0 && covers_all(graph, slots0, pool0, logic) ==> covers_all(
                graph,
                check_map@,
                items_owned@,
                logic,
            ),
            keeps(slots0, last),
            keeps(last, check_map@),
            reachable_checks@ == searched(
                graph,
                assumed(graph, last, assumed_base(graph, items_owned@), logic),
                logic,
            ),
            draws.len() + items_owned@.len() == pool0.len(),
            check_map@ == filled_by(graph, slots0, pool0, logic, draws),
            skipped@ == skipped_by(graph, slots0, pool0, logic, draws),
            reachable_checks@ == seen_by(graph, slots0, pool0, logic, draws),
            forall|t: int| 0 <= t < draws.len() ==> #[trigger] turn_due(graph, slots0, pool0, logic, draws, t),
        decreases items_owned@.len(),
    {
        let ghost slots = check_map@;
        let ghost pool = items_owned@;
        let ghost left = skipped@;
        let item = items_owned.remove(0);
        let ghost rest = items_owned@;
        reachable_checks = assumed_search(graph, items_owned, check_map, settings);
        proof {
            last = slots;
        }
        let filtered_checks = filter_checks(graph, item, &reachable_checks, check_map);
        let ghost wanted = is_candidate(graph, slots, item);
        proof {
            assert(pool =~= seq![item] + rest);
            assert(rest =~= pool0.skip(pool0.len() - rest.len()));
            to_multiset_remove(pool, 0);
            pool.to_multiset_ensures();
            assert(pool.to_multiset().count(item) > 0);
            assert forall|i: int| 0 <= i < filtered_checks@.len() implies wanted(
                #[trigger] filtered_checks@[i],
            ) && reachable_checks@.contains(filtered_checks@[i]) by {
                reachable_checks@.lemma_filter_pred(wanted, i);
                assert(filtered_checks@.contains(filtered_checks@[i]));
                reachable_checks@.lemma_filter_contains_rev(wanted, filtered_checks@[i]);
            }
        }
        let ghost before = draws;
        proof {
            assert(goes_on(graph, slots0, pool0, logic, before));
            assert(item == pool0[before.len() as int]);
            assert(rest =~= pool0.skip(before.len() as int + 1));
            assert(filtered_checks@ == candidates(graph, slots, rest, item, logic));
        }
        let index = if filtered_checks.len() > 0 {
            draw_below(rng, filtered_checks.len())
        } else {
            0
        };
        place_or_skip(item, &filtered_checks, index, check_map, &mut skipped);
        proof {
            draws = before.push(index as int);
            assert(draws.drop_last() =~= before);
            assert(draws.take(before.len() as int) =~= before);
            assert forall|t: int| 0 <= t < draws.len() implies #[trigger] turn_due(
                graph,
                slots0,
                pool0,
                logic,
                draws,
                t,
            ) by {
                if t < before.len() {
                    assert(draws.take(t) =~= before.take(t));
                    assert(turn_due(graph, slots0, pool0, logic, before, t));
                }
            }
            if filtered_checks@.len() > 0 {
                let check = filtered_checks@[index as int];
                assert(wanted(check));
                lemma_bind_empty(slots, check as int, item);
                assert(bound_items(slots).insert(item).add(rest.to_multiset()).add(left.to_multiset())
                    =~= bound_items(slots).add(pool.to_multiset()).add(left.to_multiset()));
                let i = choose|i: int| 0 <= i < reachable_checks@.len() && reachable_checks@[i] == check;
                let without = assumed(graph, slots, assumed_base(graph, rest), logic);
                assert(graph.opens(reachable_checks@[i] as int, without, logic));
                lemma_placement_keeps_reach(graph, slots, rest, item, check as int, logic);
                if left.len() == 0 && covers_all(graph, slots0, pool0, logic) {
                    let held = assumed(graph, slots, assumed_base(graph, pool), logic);
                    let after = assumed(graph, check_map@, assumed_base(graph, rest), logic);
                    assert forall|c: int| 0 <= c < graph.checks@.len() implies #[trigger] graph.opens(
                        c,
                        after,
                        logic,
                    ) by {
                        assert(graph.opens(c, held, logic));
                        graph.lemma_opens_monotone(c, held, after, logic);
                    }
                }
            } else {
                to_multiset_build(left, item);
                assert(bound_items(slots).add(rest.to_multiset()).add(left.to_multiset().insert(item))
                    =~= bound_items(slots).add(pool.to_multiset()).add(left.to_multiset()));
            }
        }
    }
    proof {
        if items_owned@.len() > 0 {
            assert(stuck(graph, last, check_map@, items_owned@, logic));
        }
        assert(!goes_on(graph, slots0, pool0, logic, draws));
        assert(fill_draws(graph, slots0, pool0, logic, draws));
    }
    skipped
}

/// The checks that hold nothing yet, in the order of the check map.
pub open spec fn empty_checks(slots: Seq<Option<FillerItem>>) -> Seq<usize>
    decreases slots.len(),
{
    if slots.len() == 0 {
        Seq::empty()
    } else if slots.last() is None {
        empty_checks(slots.drop_last()).push((slots.len() - 1) as usize)
    } else {
        empty_checks(slots.drop_last())
    }
}

/// There are as many empty checks as the count says; each is a position
/// of the check map that holds nothing, and each such position is listed
/// once.
pub proof fn lemma_empty_checks(slots: Seq<Option<FillerItem>>)
    requires
        slots.len() <= usize::MAX,
    ensures
        empty_checks(slots).len() == empty_count(slots),
        empty_checks(slots).no_duplicates(),
        forall|i: int|
            0 <= i < empty_checks(slots).len() ==> (#[trigger] empty_checks(slots)[i]) < slots.len()
                && slots[empty_checks(slots)[i] as int] is None,
        forall|c: usize| c < slots.len() && slots[c as int] is None ==> empty_checks(slots).contains(c),
    decreases slots.len(),
{
    if slots.len() > 0 {
        let shorter = slots.drop_last();
        lemma_empty_checks(shorter);
        let list = empty_checks(slots);
        let before = empty_checks(shorter);
        assert forall|c: usize| c < slots.len() && slots[c as int] is None implies list.contains(c) by {
            if c < shorter.len() {
                assert(shorter[c as int] is None);
                assert(before.contains(c));
                let i = choose|i: int| 0 <= i < before.len() && before[i] == c;
                assert(list[i] == c);
            } else {
                assert(list[list.len() - 1] == c);
            }
        }
        assert forall|i: int| 0 <= i < list.len() implies (#[trigger] list[i]) < slots.len()
            && slots[list[i] as int] is None by {
            if i < before.len() {
                assert(list[i] == before[i]);
                assert(shorter[before[i] as int] is None);
            }
        }
    }
}

/// Binds the filler to the check at `index` of the list of empty checks,
/// which leaves the list.
pub fn fill_empty_at(check_map: &mut CheckMap, empty_check_keys: &mut Vec<usize>, index: usize, trash: FillerItem)
    requires
        index < old(empty_check_keys)@.len(),
        old(empty_check_keys)@[index as int] < old(check_map)@.len(),
    ensures
        final(check_map)@ == old(check_map)@.update(
            old(empty_check_keys)@[index as int] as int,
            Some(trash),
        ),
        final(empty_check_keys)@ == old(empty_check_keys)@.remove(index as int),
{
    let check = empty_check_keys.remove(index);
    check_map.insert(check, trash);
}

/// Fills the checks that are still empty with the trash pool: each filler,
/// in the pool's order, goes to an empty check drawn at random. Unless
/// there are as many empty checks as fillers, nothing is placed.
pub fn fill_trash(check_map: &mut CheckMap, rng: &mut StdRng, trash_items: &Vec<FillerItem>) -> (r: Result<
    (),
    FillError,
>)
    ensures
        r is Ok <==> empty_count(old(check_map)@) == trash_items@.len(),
        r matches Err(e) ==> final(check_map)@ == old(check_map)@ && e == (FillError::TrashMismatch {
            empty: empty_count(old(check_map)@) as usize,
            trash: trash_items@.len() as usize,
        }),
        r is Ok ==> {
            &&& all_bound(final(check_map)@)
            &&& keeps(old(check_map)@, final(check_map)@)
            &&& bound_items(final(check_map)@) == bound_items(old(check_map)@).add(
                trash_items@.to_multiset(),
            )
            &&& forall|c: int|
                0 <= c < old(check_map)@.len() && (#[trigger] old(check_map)@[c]) is None
                    ==> trash_items@.contains(final(check_map)@[c]->0)
        },
{
    let ghost slots0 = check_map@;
    let mut empty_check_keys: Vec<usize> = Vec::new();
    let mut c: usize = 0;
    while c < check_map.len()
        invariant
            c <= check_map@.len(),
            check_map@ == slots0,
            empty_check_keys@ == empty_checks(slots0.subrange(0, c as int)),
        decreases check_map@.len() - c,
    {
        assert(slots0.subrange(0, c + 1).drop_last() =~= slots0.subrange(0, c as int));
        if check_map.get(c).is_none() {
            empty_check_keys.push(c);
        }
        c += 1;
    }
    proof {
        assert(slots0.subrange(0, slots0.len() as int) =~= slots0);
        lemma_empty_checks(slots0);
        lemma_empty_count_zero(slots0);
    }
    if empty_check_keys.len() != trash_items.len() {
        return Err(
            FillError::TrashMismatch { empty: empty_check_keys.len(), trash: trash_items.len() },
        );
    }
    let mut i: usize = 0;
    proof {
        assert(trash_items@.subrange(0, 0) =~= Seq::<FillerItem>::empty());
        lemma_no_items(Seq::<FillerItem>::empty());
        assert(bound_items(slots0).add(Seq::<FillerItem>::empty().to_multiset()) =~= bound_items(slots0));
    }
    while i < trash_items.len()
        invariant
            i <= trash_items@.len(),
            check_map@.len() == slots0.len(),
            keeps(slots0, check_map@),
            empty_check_keys@.len() == trash_items@.len() - i,
            empty_check_keys@.no_duplicates(),
            forall|k: int|
                0 <= k < empty_check_keys@.len() ==> (#[trigger] empty_check_keys@[k]) < check_map@.len()
                    && check_map@[empty_check_keys@[k] as int] is None,
            forall|c: usize|
                c < check_map@.len() && check_map@[c as int] is None ==> empty_check_keys@.contains(c),
            bound_items(check_map@) == bound_items(slots0).add(
                trash_items@.subrange(0, i as int).to_multiset(),
            ),
            forall|c: int|
                0 <= c < slots0.len() && (#[trigger] slots0[c]) is None && check_map@[c] is Some
                    ==> trash_items@.contains(check_map@[c]->0),
        decreases trash_items@.len() - i,
    {
        let trash = trash_items[i];
        let index = draw_below(rng, empty_check_keys.len());
        let ghost slots = check_map@;
        let ghost keys = empty_check_keys@;
        let ghost check = keys[index as int];
        fill_empty_at(check_map, &mut empty_check_keys, index, trash);
        proof {
            lemma_bind_empty(slots, check as int, trash);
            let placed = trash_items@.subrange(0, i as int);
            assert(trash_items@.subrange(0, i + 1) =~= placed.push(trash));
            to_multiset_build(placed, trash);
            assert(bound_items(slots0).add(placed.to_multiset()).insert(trash) =~= bound_items(slots0).add(
                placed.to_multiset().insert(trash),
            ));
            let now = empty_check_keys@;
            assert forall|k: int| 0 <= k < now.len() implies (#[trigger] now[k]) < check_map@.len()
                && check_map@[now[k] as int] is None by {
                let a = if k < index { k } else { k + 1 };
                assert(now[k] == keys[a]);
            }
            assert(now.no_duplicates()) by {
                assert forall|a: int, b: int| 0 <= a < now.len() && 0 <= b < now.len() && a != b implies now[a]
                    != now[b] by {
                    let x = if a < index { a } else { a + 1 };
                    let y = if b < index { b } else { b + 1 };
                    assert(now[a] == keys[x] && now[b] == keys[y]);
                }
            }
            assert forall|c: usize| c < check_map@.len() && check_map@[c as int] is None implies now.contains(
                c,
            ) by {
                assert(slots[c as int] is None);
                assert(keys.contains(c));
                let k = choose|k: int| 0 <= k < keys.len() && keys[k] == c;
                if k < index {
                    assert(now[k] == c);
                } else {
                    assert(now[k - 1] == c);
                }
            }
            assert forall|c: int|
                0 <= c < slots0.len() && (#[trigger] slots0[c]) is None && check_map@[c] is Some implies trash_items@.contains(
                check_map@[c]->0,
            ) by {
                if c == check {
                    assert(trash_items@[i as int] == trash);
                }
            }
        }
        i += 1;
    }
    proof {
        assert(trash_items@.subrange(0, trash_items@.len() as int) =~= trash_items@);
        assert forall|c: int| 0 <= c < check_map@.len() implies (#[trigger] check_map@[c]) is Some by {
            if check_map@[c] is None {
                assert(empty_check_keys@.contains(c as usize));
            }
        }
    }
    Ok(())
}

/// What is handed to the patcher for the first `count` checks: for each
/// check that is to be patched, in the order of the world graph, how the
/// patcher addresses it and the item of the game that it holds.
pub open spec fn emitted(graph: &WorldGraph, slots: Seq<Option<FillerItem>>, count: int) -> Seq<
    (LocationInfo, Item),
>
    decreases count,
{
    if count <= 0 {
        Seq::empty()
    } else {
        let check = graph.checks@[count - 1];
        if check.location_info is Some {
            emitted(graph, slots, count - 1).push(
                (check.location_info->0, game_item(slots[count - 1]->0)->0),
            )
        } else {
            emitted(graph, slots, count - 1)
        }
    }
}

/// Whether the check can be handed to the patcher: it holds an item, and
/// the game has an item for it. A check that is not to be patched always
/// can.
pub open spec fn emits(graph: &WorldGraph, slots: Seq<Option<FillerItem>>, check: int) -> bool {
    graph.checks@[check].location_info is Some ==> slots[check] is Some && game_item(slots[check]->0) is Some
}

/// The result of a placement: for each check that is to be patched, in the
/// order of the world graph, how the patcher addresses it and the item of
/// the game that it holds. The first such check that holds nothing, or a
/// tag for which the game has no item, is an error.
pub fn map_to_result(graph: &WorldGraph, check_map: &CheckMap) -> (r: Result<Vec<(LocationInfo, Item)>, FillError>)
    requires
        check_map@.len() == graph.checks@.len(),
    ensures
        r is Ok <==> forall|c: int| 0 <= c < graph.checks@.len() ==> #[trigger] emits(graph, check_map@, c),
        r matches Ok(result) ==> result@ == emitted(graph, check_map@, graph.checks@.len() as int),
        r matches Err(e) ==> exists|c: int|
            0 <= c < graph.checks@.len() && !#[trigger] emits(graph, check_map@, c) && (forall|b: int|
                0 <= b < c ==> #[trigger] emits(graph, check_map@, b)) && match check_map@[c] {
                None => e matches FillError::Unbound(name) && name@ == graph.checks@[c].name@,
                Some(item) => e == FillError::Unmappable(item),
            },
{
    let mut result: Vec<(LocationInfo, Item)> = Vec::new();
    let mut c: usize = 0;
    while c < graph.checks.len()
        invariant
            c <= graph.checks@.len(),
            check_map@.len() == graph.checks@.len(),
            result@ == emitted(graph, check_map@, c as int),
            forall|b: int| 0 <= b < c ==> #[trigger] emits(graph, check_map@, b),
        decreases graph.checks@.len() - c,
    {
        let check = &graph.checks[c];
        match check.get_location_info() {
            Some(info) => {
                let item = match check_map.get(c) {
                    Some(item) => item,
                    None => {
                        assert(!emits(graph, check_map@, c as int));
                        return Err(FillError::Unbound(check.name.clone()));
                    },
                };
                let mapped = match convert(item) {
                    Some(mapped) => mapped,
                    None => {
                        assert(!emits(graph, check_map@, c as int));
                        return Err(FillError::Unmappable(item));
                    },
                };
                result.push((info, mapped));
            },
            None => {},
        }
        c += 1;
    }
    Ok(result)
}

/// What a placement hands back: the check map, the progression items for
/// which no check was found, and those that were still in the pool when no
/// empty check could be reached any more.
#[derive(Debug)]
pub struct Placement {
    pub check_map: CheckMap,
    pub skipped: Vec<FillerItem>,
    pub leftover: Vec<FillerItem>,
}

/// Whether the checks that hold nothing in `before` hold filler of the
/// list in `after`, and the others what they held.
pub open spec fn trash_filled(
    before: Seq<Option<FillerItem>>,
    after: Seq<Option<FillerItem>>,
    trash: Seq<FillerItem>,
) -> bool {
    &&& keeps(before, after)
    &&& forall|c: int|
        0 <= c < before.len() && (#[trigger] before[c]) is None ==> after[c] is Some && trash.contains(
            after[c]->0,
        )
}

/// What holds of every check map that a placement hands back.
///
/// Every check holds an item. Whatever was bound to a check beyond what
/// the world fixes there lies on a check that may hold it: a dungeon prize
/// on a check whose name contains "Prize", a key or a compass in its own
/// dungeon. Each check that the player wants left out holds filler of the
/// trash pool, and so does each minigame where the settings leave them
/// out. Each check whose item never varies holds that item, where the
/// maiamai are not shuffled the checks where they hide hold them in order,
/// and the castle and the shop hold what the settings put there, unless
/// the player wants such a check left out. And nothing is
/// bound but what the world fixes at its checks and what the two pools
/// hold, each item no more often than it is there.
pub open spec fn filled(graph: &WorldGraph, settings: &Settings, slots: Seq<Option<FillerItem>>) -> bool {
    let logic = settings.logic;
    let left_out = settings.exclusions.names();
    &&& slots.len() == graph.checks@.len()
    &&& all_bound(slots)
    &&& bound_items(slots).subset_of(in_play(quest_slots(graph), progression_pool(logic), trash_items(logic)))
    &&& fitly_changed(graph, quest_slots(graph), slots)
    &&& hold_from(graph, slots, left_out, trash_items(logic))
    &&& forall|k: int|
        0 <= k < fixed_names(logic).len() && !left_out.contains(#[trigger] fixed_names(logic)[k]) ==> holds_at(
            graph,
            slots,
            fixed_names(logic)[k],
            fixed_items(logic)[k],
        )
    &&& !logic.maiamai_madness && (forall|k: int|
        0 <= k < left_out.len() ==> !Spot::Maiamai.holds(#[trigger] left_out[k])) ==> maiamai_hold(graph, slots)
    &&& (forall|k: int|
        0 <= k < left_out.len() ==> !Spot::Castle.holds(#[trigger] left_out[k]) && !Spot::Shop.holds(
            left_out[k],
        )) ==> shelves_hold(graph, slots, logic)
    &&& logic.minigames_excluded ==> hold_from(
        graph,
        slots,
        crate::names::minigame_names(logic),
        trash_items(logic),
    )
}

/// Whether the check map binds exactly what the world fixes at its checks
/// and what the two pools hold, each item as often as it is there, where
/// the pools hold as many items as the world has checks that hold nothing
/// to begin with.
pub open spec fn conserved(graph: &WorldGraph, settings: &Settings, slots: Seq<Option<FillerItem>>) -> bool {
    progression_pool(settings.logic).len() + trash_items(settings.logic).len() == empty_count(
        quest_slots(graph),
    ) ==> bound_items(slots) == in_play(
        quest_slots(graph),
        progression_pool(settings.logic),
        trash_items(settings.logic),
    )
}

/// Whether a placement can begin: no two checks have the same name, with
/// the whole progression pool in hand every check can be taken, the world
/// has each check that the player wants left out, there is room for what
/// the settings place ahead, and the trash pool has a filler for each
/// minigame and each check left out.
pub open spec fn can_begin(graph: &WorldGraph, settings: &Settings) -> bool {
    let logic = settings.logic;
    &&& graph.names_distinct()
    &&& covers_all(graph, quest_slots(graph), progression_pool(logic), logic)
    &&& all_named(graph, settings.exclusions.names())
    &&& room_ahead(graph, quest_slots(graph), logic, trash_items(logic).len())
    &&& settings.exclusions.names().len() + (if logic.minigames_excluded {
        crate::names::minigame_names(logic).len()
    } else {
        0nat
    }) <= trash_items(logic).len()
}

/// What the exclusions and the minigames leave of the trash pool.
pub open spec fn trash_left(settings: &Settings) -> int {
    trash_items(settings.logic).len() - settings.exclusions.names().len() - if settings.logic.minigames_excluded {
        crate::names::minigame_names(settings.logic).len() as int
    } else {
        0int
    }
}

/// Whether the error is the one that a placement ends with. The first of
/// these that holds decides: two checks of one name; a check out of reach
/// with the whole progression pool in hand; a check to leave out that the
/// world does not have; no room for what the settings place ahead; fewer
/// fillers left than there are checks to leave out. After that the fill is
/// made, and the checks that it leaves empty and the fillers left differ
/// in number; or, where the result is drawn up, a check that is to be
/// patched holds a tag for which the game has no item.
pub open spec fn fails_with(graph: &WorldGraph, settings: &Settings, e: FillError) -> bool {
    let logic = settings.logic;
    let names = settings.exclusions.names();
    let whole = progression_pool(logic);
    let begun = graph.names_distinct() && covers_all(graph, quest_slots(graph), whole, logic);
    let room = room_ahead(graph, quest_slots(graph), logic, trash_items(logic).len());
    match e {
        FillError::DuplicateCheck(name) => exists|i: int, j: int|
            0 <= i < j < graph.checks@.len() && (#[trigger] graph.checks@[i]).name@ == name@ && (
            #[trigger] graph.checks@[j]).name@ == name@,
        FillError::Unreachable { reachable, total } => {
            &&& graph.names_distinct()
            &&& !covers_all(graph, quest_slots(graph), whole, logic)
            &&& total == graph.checks@.len()
            &&& reachable == searched(
                graph,
                assumed(graph, quest_slots(graph), assumed_base(graph, whole), logic),
                logic,
            ).len()
        },
        FillError::UnknownExclusion(name) => begun && exists|k: int|
            0 <= k < names.len() && name@ == #[trigger] names[k] && !graph.has_name(name@) && all_named(
                graph,
                names.subrange(0, k),
            ),
        FillError::NoPlace(_) | FillError::OutOfMaiamai => begun && all_named(graph, names) && ahead_error(
            graph,
            quest_slots(graph),
            logic,
            trash_items(logic).len(),
            e,
        ),
        FillError::OutOfTrash => begun && all_named(graph, names) && if room {
            trash_left(settings) < 0
        } else {
            ahead_error(graph, quest_slots(graph), logic, trash_items(logic).len(), e)
        },
        FillError::TrashMismatch { empty, trash } => {
            &&& can_begin(graph, settings)
            &&& trash == trash_left(settings)
            &&& empty != trash
            &&& empty <= empty_count(quest_slots(graph))
        },
        FillError::Unbound(_) => false,
        FillError::Unmappable(item) => can_begin(graph, settings) && game_item(item) is None,
    }
}

/// The same pool, in another order, covers the same checks.
proof fn lemma_covers_same(
    graph: &WorldGraph,
    slots: Seq<Option<FillerItem>>,
    a: Seq<FillerItem>,
    b: Seq<FillerItem>,
    logic: Logic,
)
    requires
        a.to_set() == b.to_set(),
    ensures
        covers_all(graph, slots, a, logic) == covers_all(graph, slots, b, logic),
{
    assert(assumed_base(graph, a) =~= assumed_base(graph, b));
}

/// Filling the empty checks with filler changes nothing else, and filler
/// lies on any check.
proof fn lemma_trash_filled_fit(
    graph: &WorldGraph,
    before: Seq<Option<FillerItem>>,
    after: Seq<Option<FillerItem>>,
    trash: Seq<FillerItem>,
)
    requires
        trash_filled(before, after, trash),
        only_trash(trash),
    ensures
        fitly_changed(graph, before, after),
{
    assert forall|c: int| 0 <= c < before.len() && (#[trigger] after[c]) != before[c] implies after[c] is Some
        && fits(graph, c, after[c]->0) by {
        let item = after[c]->0;
        assert(before[c] is None);
        let i = choose|i: int| 0 <= i < trash.len() && trash[i] == item;
        assert(trash[i].trash());
        item.lemma_dungeon_local();
    }
}

/// Places an item on every check of the world.
///
/// The check map is made and the two pools are drawn up. With the whole
/// progression pool in hand every check has to be within reach, and the
/// world has to have each check that the player wants left out. Then what
/// the settings place ahead is placed, the checks left out are given
/// filler, the progression items are placed by the assumed fill, and the
/// filler takes the checks that are still empty.
pub fn fill_check_map(graph: &WorldGraph, settings: &Settings, seed: Seed) -> (r: Result<Placement, FillError>)
    requires
        graph.wf(),
    ensures
        r matches Ok(placement) ==> {
            &&& can_begin(graph, settings)
            &&& filled(graph, settings, placement.check_map@)
            &&& conserved(graph, settings, placement.check_map@)
            &&& bound_items(placement.check_map@).add(placement.skipped@.to_multiset()).add(
                placement.leftover@.to_multiset(),
            ).subset_of(
                in_play(quest_slots(graph), progression_pool(settings.logic), trash_items(settings.logic)),
            )
        },
        r matches Err(e) ==> fails_with(graph, settings, e) && !(e is Unmappable),
        can_begin(graph, settings) ==> r is Ok || r->Err_0 is TrashMismatch,
{
    let ghost logic = settings.logic;
    let ghost left_out = settings.exclusions.names();
    let mut rng = seeded(seed);
    let mut check_map = match prefill_check_map(graph) {
        Ok(check_map) => check_map,
        Err(e) => {
            return Err(e);
        },
    };
    let ghost slots0 = check_map@;
    let (mut progression_pool, mut trash_pool) = get_item_pools(settings, &mut rng);
    let ghost trash0 = trash_pool@;
    let ghost pool0 = progression_pool@;
    proof {
        lemma_stocked(logic);
        lemma_ordered_permutes(
            progression_pool@,
            crate::pools::dungeon_prizes(),
            crate::pools::big_keys(),
            crate::pools::small_keys(),
            crate::pools::compasses(),
            crate::pools::progression_items(logic),
        );
        lemma_permutes_same_set(progression_pool@, crate::pools::progression_pool(logic));
        lemma_covers_same(graph, slots0, progression_pool@, crate::pools::progression_pool(logic), logic);
        lemma_permutes_same_set(trash0, trash_items(logic));
        lemma_trash_items(logic);
        assert(only_trash(trash0)) by {
            assert forall|i: int| 0 <= i < trash0.len() implies (#[trigger] trash0[i]).trash() by {
                let k = choose|k: int| 0 <= k < trash_items(logic).len() && trash_items(logic)[k] == trash0[i];
                assert(trash_items(logic)[k].trash());
            }
        }
    }
    proof {
        assert(assumed_base(graph, progression_pool@) =~= assumed_base(
            graph,
            crate::pools::progression_pool(logic),
        ));
    }
    match verify_all_locations_accessible(graph, &progression_pool, settings) {
        Ok(()) => {},
        Err(e) => {
            return Err(e);
        },
    }
    match check_exclusions(graph, settings) {
        Ok(()) => {},
        Err(e) => {
            return Err(e);
        },
    }
    match preplace_items(
        graph,
        &mut check_map,
        settings,
        &mut rng,
        &mut progression_pool,
        &mut trash_pool,
    ) {
        Ok(()) => {},
        Err(e) => {
            return Err(e);
        },
    }
    let ghost ahead = check_map@;
    let ghost trash1 = trash_pool@;
    let ghost pool1 = progression_pool@;
    match handle_exclusions(graph, &mut check_map, settings, &mut rng, &mut trash_pool) {
        Ok(()) => {},
        Err(e) => {
            return Err(e);
        },
    }
    let ghost excluded = check_map@;
    let ghost trash2 = trash_pool@;
    proof {
        assert(only_trash(trash1)) by {
            assert forall|i: int| 0 <= i < trash1.len() implies (#[trigger] trash1[i]).trash() by {
                let k = choose|k: int| 0 <= k < trash0.len() && trash0[k] == trash1[i];
                assert(trash0[k].trash());
            }
        }
        assert(only_trash(trash2)) by {
            assert forall|i: int| 0 <= i < trash2.len() implies (#[trigger] trash2[i]).trash() by {
                let k = choose|k: int| 0 <= k < trash1.len() && trash1[k] == trash2[i];
                assert(trash1[k].trash());
            }
        }
        lemma_trash_fit(graph, ahead, excluded, left_out, trash1);
        lemma_fitly_twice(graph, slots0, ahead, excluded);
    }
    let skipped = assumed_fill(graph, &mut rng, &mut progression_pool, &mut check_map, settings);
    let ghost placed = check_map@;
    proof {
        lemma_fitly_twice(graph, slots0, excluded, placed);
    }
    proof {
        assert forall|c: int| 0 <= c < slots0.len() && (#[trigger] slots0[c]) is Some implies placed[c] is Some by {
            if placed[c] != slots0[c] {
                assert(placed[c] is Some);
            }
        }
        lemma_fewer_empty(slots0, placed);
        lemma_empty_count_zero(placed);
        assert(placed.len() == check_map.slots.len());
        assert(trash_pool@.len() == trash_left(settings));
    }
    match fill_trash(&mut check_map, &mut rng, &trash_pool) {
        Ok(()) => {},
        Err(e) => {
            return Err(e);
        },
    }
    proof {
        let last = check_map@;
        assert(bound_items(last).add(skipped@.to_multiset()).add(progression_pool@.to_multiset()).subset_of(
            in_play(quest_slots(graph), crate::pools::progression_pool(logic), trash_items(logic)),
        )) by {
            let whole = in_play(quest_slots(graph), crate::pools::progression_pool(logic), trash_items(logic));
            assert(whole =~= in_play(slots0, pool0, trash0));
            assert forall|x: FillerItem|
                bound_items(last).add(skipped@.to_multiset()).add(progression_pool@.to_multiset()).count(x)
                    <= whole.count(x) by {
                assert(in_play(ahead, pool1, trash1).count(x) <= in_play(slots0, pool0, trash0).count(x));
                assert(bound_items(excluded).add(trash2.to_multiset()).count(x) <= bound_items(ahead).add(
                    trash1.to_multiset(),
                ).count(x));
                assert(bound_items(placed).add(progression_pool@.to_multiset()).add(skipped@.to_multiset()).count(
                    x,
                ) == bound_items(excluded).add(pool1.to_multiset()).count(x));
            }
        }
        assert(trash_filled(placed, last, trash2)) by {
            assert forall|c: int| 0 <= c < placed.len() && (#[trigger] placed[c]) is None implies last[c] is Some
                && trash2.contains(last[c]->0) by {
                assert(last[c] is Some);
            }
        }
        lemma_trash_filled_fit(graph, placed, last, trash2);
        lemma_fitly_twice(graph, slots0, placed, last);
        assert(hold_from(graph, last, left_out, trash_items(logic))) by {
            assert forall|k: int, c: int|
                0 <= k < left_out.len() && 0 <= c < last.len() && #[trigger] is_named(
                    graph,
                    c,
                    left_out[k],
                ) implies (#[trigger] last[c]) is Some && trash_items(logic).contains(last[c]->0) by {
                assert(excluded[c] is Some && trash1.contains(excluded[c]->0));
                assert(placed[c] == excluded[c]);
                assert(last[c] == placed[c]);
                let item = excluded[c]->0;
                let i = choose|i: int| 0 <= i < trash1.len() && trash1[i] == item;
                assert(trash0.contains(trash1[i]));
                let j = choose|j: int| 0 <= j < trash0.len() && trash0[j] == item;
                assert(trash_items(logic).contains(trash0[j]));
            }
        }
        assert forall|k: int|
            0 <= k < fixed_names(logic).len() && !left_out.contains(#[trigger] fixed_names(logic)[k]) implies holds_at(
            graph,
            last,
            fixed_names(logic)[k],
            fixed_items(logic)[k],
        ) by {
            let name = fixed_names(logic)[k];
            assert(holds_at(graph, ahead, name, fixed_items(logic)[k]));
            assert forall|c: int| 0 <= c < last.len() && #[trigger] is_named(graph, c, name) implies last[c]
                == Some(fixed_items(logic)[k]) by {
                lemma_named(graph, c, name);
                if excluded[c] != ahead[c] {
                    let j = choose|j: int| 0 <= j < left_out.len() && is_named(graph, c, #[trigger] left_out[j]);
                    lemma_named(graph, c, left_out[j]);
                    assert(left_out.contains(left_out[j]));
                }
                assert(placed[c] == excluded[c]);
                assert(last[c] == placed[c]);
            }
        }
        if forall|k: int|
            0 <= k < left_out.len() ==> !Spot::Castle.holds(#[trigger] left_out[k]) && !Spot::Shop.holds(
                left_out[k],
            ) {
            assert forall|c: int|
                0 <= c < ahead.len() && c < graph.checks@.len() && (Spot::Castle.holds(graph.checks@[c].name@)
                    || Spot::Shop.holds(graph.checks@[c].name@)) && ahead[c] is Some implies #[trigger] last[c]
                == ahead[c] by {
                if excluded[c] != ahead[c] {
                    let j = choose|j: int| 0 <= j < left_out.len() && is_named(graph, c, #[trigger] left_out[j]);
                    lemma_named(graph, c, left_out[j]);
                }
                assert(placed[c] == excluded[c]);
                assert(last[c] == placed[c]);
            }
            lemma_shelves_stay(graph, ahead, last, logic);
        }
        if logic.minigames_excluded {
            let games = crate::names::minigame_names(logic);
            assert forall|k: int, c: int|
                0 <= k < games.len() && 0 <= c < last.len() && #[trigger] is_named(graph, c, games[k]) implies (
            #[trigger] last[c]) is Some && trash_items(logic).contains(last[c]->0) by {
                assert(ahead[c] is Some && trash0.contains(ahead[c]->0));
                assert(excluded[c] is Some);
                assert(placed[c] == excluded[c]);
                assert(last[c] == placed[c]);
                let item = excluded[c]->0;
                if excluded[c] != ahead[c] {
                    assert(trash1.contains(item));
                    let i = choose|i: int| 0 <= i < trash1.len() && trash1[i] == item;
                    assert(trash0.contains(trash1[i]));
                }
                let j = choose|j: int| 0 <= j < trash0.len() && trash0[j] == item;
                assert(trash_items(logic).contains(trash0[j]));
            }
        }
        if !logic.maiamai_madness && (forall|k: int|
            0 <= k < left_out.len() ==> !Spot::Maiamai.holds(#[trigger] left_out[k])) {
            let hides = spots(graph, ahead, Spot::Maiamai, false);
            lemma_spots(graph, ahead, Spot::Maiamai, false);
            assert(spots(graph, last, Spot::Maiamai, false) =~= hides) by {
                assert(is_spot(graph, last, Spot::Maiamai, false)
                    =~= is_spot(graph, ahead, Spot::Maiamai, false));
            }
            assert forall|k: int| 0 <= k < hides.len() implies last[(#[trigger] hides[k]) as int] == Some(
                crate::pools::maiamai_items()[k],
            ) by {
                let c = hides[k] as int;
                assert(ahead[c] == Some(crate::pools::maiamai_items()[k]));
                if excluded[c] != ahead[c] {
                    let j = choose|j: int| 0 <= j < left_out.len() && is_named(graph, c, #[trigger] left_out[j]);
                    lemma_named(graph, c, left_out[j]);
                }
                assert(placed[c] == excluded[c]);
                assert(last[c] == placed[c]);
            }
        }
    }
    proof {
        if crate::pools::progression_pool(logic).len() + trash_items(logic).len() == empty_count(
            quest_slots(graph),
        ) {
            lemma_conservation(graph, settings, check_map@);
        }
    }
    Ok(Placement { check_map, skipped, leftover: progression_pool })
}

/// The progression pool holds each item that the settings place ahead of
/// the fill.
proof fn lemma_stocked(logic: Logic)
    ensures
        stocked(progression_pool(logic), logic),
{
    let pool = progression_pool(logic);
    lemma_fixed_items_differ(logic);
    assert forall|k: int| 0 <= k < fixed_items(logic).len() implies in_pool(pool, #[trigger] fixed_items(logic)[k]) by {
        if k >= 5 {
            FillerItem::lemma_position_at(crate::item::FIRST_PRIZE + k - 5);
        }
        lemma_pool_has(logic, fixed_items(logic)[k]);
    }
    assert forall|x: FillerItem| #[trigger] shop_good(x, logic) implies in_pool(pool, x) by {
        lemma_pool_has(logic, x);
    }
    assert forall|k: int| 0 <= k < 100 implies in_pool(pool, #[trigger] crate::pools::maiamai_items()[k]) by {
        FillerItem::lemma_position_at(crate::item::FIRST_MAIAMAI + k);
        lemma_pool_has(logic, crate::pools::maiamai_items()[k]);
    }
}

/// Where the two pools hold as many items as the world has checks that
/// hold nothing to begin with, a placement binds exactly what the world
/// fixes at its checks and what the two pools hold, each item as often as
/// it is there.
pub proof fn lemma_conservation(graph: &WorldGraph, settings: &Settings, slots: Seq<Option<FillerItem>>)
    requires
        filled(graph, settings, slots),
        progression_pool(settings.logic).len() + trash_items(settings.logic).len() == empty_count(
            quest_slots(graph),
        ),
    ensures
        bound_items(slots) == in_play(
            quest_slots(graph),
            progression_pool(settings.logic),
            trash_items(settings.logic),
        ),
{
    broadcast use vstd::multiset::group_multiset_axioms;

    let logic = settings.logic;
    let whole = in_play(quest_slots(graph), progression_pool(logic), trash_items(logic));
    lemma_bound_len(slots);
    lemma_bound_len(quest_slots(graph));
    lemma_empty_count_zero(slots);
    vstd::seq_lib::to_multiset_len(progression_pool(logic));
    vstd::seq_lib::to_multiset_len(trash_items(logic));
    lemma_same_size(bound_items(slots), whole);
}

/// The filler algorithm: places an item on every check of the world and
/// hands back, for each check that is to be patched, in the order of the
/// world graph, how the patcher addresses it and the item of the game that
/// it holds.
pub fn fill_stuff(graph: &WorldGraph, settings: &Settings, seed: Seed) -> (r: Result<
    Vec<(LocationInfo, Item)>,
    FillError,
>)
    requires
        graph.wf(),
    ensures
        r matches Ok(result) ==> can_begin(graph, settings) && exists|slots: Seq<Option<FillerItem>>|
            #[trigger] filled(graph, settings, slots) && conserved(graph, settings, slots) && result@
                == emitted(graph, slots, graph.checks@.len() as int),
        r matches Err(e) ==> fails_with(graph, settings, e),
        can_begin(graph, settings) ==> r is Ok || r->Err_0 is TrashMismatch || r->Err_0 is Unmappable,
{
    let placement = match fill_check_map(graph, settings, seed) {
        Ok(placement) => placement,
        Err(e) => {
            return Err(e);
        },
    };
    let r = map_to_result(graph, &placement.check_map);
    proof {
        if r is Err {
            let c = choose|c: int|
                0 <= c < graph.checks@.len() && !#[trigger] emits(graph, placement.check_map@, c) && (forall|
                    b: int,
                |
                    0 <= b < c ==> #[trigger] emits(graph, placement.check_map@, b)) && match placement.check_map@[c] {
                    None => r->Err_0 matches FillError::Unbound(name) && name@ == graph.checks@[c].name@,
                    Some(item) => r->Err_0 == FillError::Unmappable(item),
                };
            assert(placement.check_map@[c] is Some);
        }
    }
    r
}

} // verus!
