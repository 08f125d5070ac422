//! The checks that the player wants left out of the game's logic.

use crate::account::{lemma_bind_from_trash, lemma_bind_named_is_update, lemma_spent_twice, spent};
use crate::binding::{
    all_named, bind_all, changed_by_name, hold_from, lemma_changed_by_name_step, lemma_remove_within,
};
use crate::check_map::CheckMap;
use crate::error::FillError;
use crate::item::FillerItem;
use crate::placement::{exclude, is_named};
use crate::pools::{dealt, drawn_within, left_over, lemma_dealt_partition};
use crate::settings::Settings;
use crate::world::WorldGraph;
use rand::rngs::StdRng;
use vstd::prelude::*;

verus! {

/// Makes sure that the world has each check that the player wants left
/// out. The first name without a check is an error.
pub fn check_exclusions(graph: &WorldGraph, settings: &Settings) -> (r: Result<(), FillError>)
    ensures
        r is Ok <==> all_named(graph, settings.exclusions.names()),
        r matches Err(e) ==> e matches FillError::UnknownExclusion(name) && exists|k: int|
            0 <= k < settings.exclusions.names().len() && name@ == #[trigger] settings.exclusions.names()[k]
                && !graph.has_name(name@) && all_named(graph, settings.exclusions.names().subrange(0, k)),
{
    let ghost names = settings.exclusions.names();
    let mut k: usize = 0;
    while k < settings.exclusions.0.len()
        invariant
            names == settings.exclusions.names(),
            k <= names.len(),
            forall|j: int| 0 <= j < k ==> graph.has_name(#[trigger] names[j]),
        decreases names.len() - k,
    {
        let name = &settings.exclusions.0[k];
        assert(name@ == names[k as int]);
        if graph.find_check(name.as_str()).is_none() {
            return Err(FillError::UnknownExclusion(name.clone()));
        }
        k += 1;
    }
    Ok(())
}

/// Whether the check map and the trash pool are what the draws make of
/// them: each name, in order, has taken the filler at its draw out of what
/// the draws before it had left of the pool, and the filler was bound to
/// the check with the name.
pub open spec fn excluded_by(
    graph: &WorldGraph,
    slots: Seq<Option<FillerItem>>,
    trash: Seq<FillerItem>,
    names: Seq<Seq<char>>,
    draws: Seq<int>,
    after: Seq<Option<FillerItem>>,
    rest: Seq<FillerItem>,
) -> bool {
    &&& draws.len() == names.len()
    &&& drawn_within(draws, trash.len())
    &&& rest == left_over(trash, draws)
    &&& after == bind_all(graph, slots, names, dealt(trash, draws))
    &&& trash.to_multiset() == rest.to_multiset().add(dealt(trash, draws).to_multiset())
}

/// Leaves out of the game's logic each check that the player wants left
/// out: a filler drawn at random is bound to it, whatever it held, and
/// leaves the trash pool. A name without a check is an error, and so is
/// a trash pool with fewer fillers than there are names: nothing is drawn
/// or bound then.
#[verifier::loop_isolation(false)]
pub fn handle_exclusions(
    graph: &WorldGraph,
    check_map: &mut CheckMap,
    settings: &Settings,
    rng: &mut StdRng,
    trash_pool: &mut Vec<FillerItem>,
) -> (r: Result<(), FillError>)
    requires
        old(check_map)@.len() == graph.checks@.len(),
    ensures
        r is Ok <==> all_named(graph, settings.exclusions.names()) && settings.exclusions.names().len()
            <= old(trash_pool)@.len(),
        r is Err ==> final(check_map)@ == old(check_map)@ && final(trash_pool)@ == old(trash_pool)@,
        r matches Err(e) ==> if all_named(graph, settings.exclusions.names()) {
            e == FillError::OutOfTrash
        } else {
            e matches FillError::UnknownExclusion(name) && exists|k: int|
                0 <= k < settings.exclusions.names().len() && name@ == #[trigger] settings.exclusions.names()[k]
                    && !graph.has_name(name@) && all_named(graph, settings.exclusions.names().subrange(0, k))
        },
        r is Ok ==> exists|draws: Seq<int>| #[trigger]
            excluded_by(
                graph,
                old(check_map)@,
                old(trash_pool)@,
                settings.exclusions.names(),
                draws,
                final(check_map)@,
                final(trash_pool)@,
            ),
        changed_by_name(
            graph,
            old(check_map)@,
            final(check_map)@,
            settings.exclusions.names(),
            old(trash_pool)@,
        ),
        r is Ok ==> hold_from(graph, final(check_map)@, settings.exclusions.names(), old(trash_pool)@),
        forall|i: int|
            0 <= i < final(trash_pool)@.len() ==> old(trash_pool)@.contains(#[trigger] final(trash_pool)@[i]),
        r is Ok ==> final(trash_pool)@.len() + settings.exclusions.names().len() == old(trash_pool)@.len(),
        spent(old(check_map)@, old(trash_pool)@, final(check_map)@, final(trash_pool)@),
{
    let ghost names = settings.exclusions.names();
    let ghost slots0 = check_map@;
    let ghost trash0 = trash_pool@;
    match check_exclusions(graph, settings) {
        Ok(()) => {},
        Err(e) => {
            return Err(e);
        },
    }
    if settings.exclusions.0.len() > trash_pool.len() {
        return Err(FillError::OutOfTrash);
    }
    let ghost mut draws: Seq<int> = Seq::empty();
    let mut k: usize = 0;
    proof {
        assert(names.subrange(0, 0) =~= Seq::<Seq<char>>::empty());
    }
    while k < settings.exclusions.0.len()
        invariant
            k <= names.len(),
            names.len() <= trash0.len(),
            check_map@.len() == graph.checks@.len(),
            changed_by_name(graph, slots0, check_map@, names, trash0),
            hold_from(graph, check_map@, names.subrange(0, k as int), trash0),
            forall|i: int| 0 <= i < trash_pool@.len() ==> trash0.contains(#[trigger] trash_pool@[i]),
            trash_pool@.len() + k == trash0.len(),
            spent(slots0, trash0, check_map@, trash_pool@),
            draws.len() == k,
            forall|j: int| 0 <= j < draws.len() ==> 0 <= #[trigger] draws[j] < trash0.len() - j,
            trash_pool@ == left_over(trash0, draws),
            dealt(trash0, draws).len() == k,
            check_map@ == bind_all(graph, slots0, names.subrange(0, k as int), dealt(trash0, draws)),
        decreases names.len() - k,
    {
        let name = &settings.exclusions.0[k];
        assert(name@ == names[k as int]);
        let ghost slots = check_map@;
        let ghost pool = trash_pool@;
        let ghost before = draws;
        let index = match exclude(graph, name.as_str(), rng, check_map, trash_pool) {
            Ok(index) => index,
            Err(e) => {
                return Err(e);
            },
        };
        proof {
            lemma_remove_within(pool, index as int, trash0);
            lemma_changed_by_name_step(graph, slots0, slots, names, trash0, k as int, pool[index as int]);
            lemma_bind_named_is_update(graph, slots, names[k as int], pool[index as int]);
            lemma_bind_from_trash(slots, check_map@, pool, index as int);
            lemma_spent_twice(slots0, trash0, slots, pool, check_map@, trash_pool@);
            let shorter = names.subrange(0, k as int);
            let longer = names.subrange(0, k + 1);
            assert forall|j: int, c: int|
                0 <= j < longer.len() && 0 <= c < check_map@.len() && #[trigger] is_named(
                    graph,
                    c,
                    longer[j],
                ) implies (#[trigger] check_map@[c]) is Some && trash0.contains(check_map@[c]->0) by {
                if j < k {
                    assert(is_named(graph, c, shorter[j]));
                    assert(slots[c] is Some);
                }
            }
            draws = before.push(index as int);
            assert(draws.drop_last() =~= before);
            assert(longer.drop_last() =~= shorter);
            assert(dealt(trash0, draws).drop_last() =~= dealt(trash0, before));
            assert(dealt(trash0, draws).last() == pool[index as int]);
        }
        k += 1;
    }
    proof {
        assert(names.subrange(0, names.len() as int) =~= names);
        assert(drawn_within(draws, trash0.len()));
        lemma_dealt_partition(trash0, draws);
        assert(excluded_by(graph, slots0, trash0, names, draws, check_map@, trash_pool@));
    }
    Ok(())
}

} // verus!
