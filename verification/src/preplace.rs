//! What is placed ahead of the fill: the items that never vary, and the
//! items that the settings put in the castle, in the shop, on the
//! minigames and where the maiamai hide.

use crate::account::{
    in_pool, in_play, lemma_bind_from_trash, lemma_bind_named_is_update, lemma_spent, lemma_spent_twice,
    lemma_without_count, spent,
};
use crate::binding::{
    bind_all, changed_by_name, hold_from, holds_at, lemma_bind_all, lemma_bind_all_spent,
    lemma_bind_all_step, lemma_changed_by_name_step, lemma_fitly_twice, lemma_named,
    lemma_remove_within, lemma_trash_fit, lemma_within_twice, lemma_without_all_gone, lemma_without_all_has,
    lemma_without_all_within, lemma_without_within, only_trash, without_all,
};
use crate::check_map::{bound_items, keeps, CheckMap};
use crate::error::FillError;
use crate::filter::{fitly_changed, fits, vacant};
use crate::item::{FillerItem, FIRST_MAIAMAI, FIRST_PRIZE};
use crate::names::{
    fixed_items, fixed_names, lemma_castle_not_shop, lemma_fixed_names_apart, lemma_fixed_names_differ,
    lemma_maiamai_apart, lemma_minigames_apart, lemma_prize_names, minigame_names, prize_names,
    static_items,
};
use crate::placement::{exclude, is_named, is_not, place_item_at, place_static, remove_item, without};
use crate::pools::{maiamai_items, maiamai_pool, push_run};
use crate::rng::draw_below;
use crate::settings::{Logic, LogicMode, Settings};
use crate::spots::{
    find_spots, is_spot, lemma_listed_apart, lemma_newly_on, lemma_newly_on_stays, lemma_placed_on_stays,
    lemma_spots, listed, newly_on, placed_on,
    spots, Spot,
};
use crate::world::WorldGraph;
use rand::rngs::StdRng;
use vstd::prelude::*;

verus! {

/// Whether the checks that are bound before anything is drawn hold their
/// items.
pub open spec fn fixed_hold(graph: &WorldGraph, slots: Seq<Option<FillerItem>>, logic: Logic) -> bool {
    forall|k: int|
        0 <= k < fixed_names(logic).len() ==> holds_at(
            graph,
            slots,
            #[trigger] fixed_names(logic)[k],
            fixed_items(logic)[k],
        )
}

/// No two of the items that are bound before anything is drawn are the
/// same, and none of them is put in the castle or in the shop, or is a
/// maiamai.
pub proof fn lemma_fixed_items_differ(logic: Logic)
    ensures
        forall|i: int, j: int|
            0 <= i < j < fixed_items(logic).len() ==> #[trigger] fixed_items(logic)[i] != #[trigger] fixed_items(
                logic,
            )[j],
        forall|i: int|
            0 <= i < fixed_items(logic).len() ==> !shop_good(#[trigger] fixed_items(logic)[i], logic)
                && !maiamai_items().contains(fixed_items(logic)[i]),
        forall|k: int| 0 <= k < 100 ==> !shop_good(#[trigger] maiamai_items()[k], logic),
{
    let items = fixed_items(logic);
    assert forall|i: int| 0 <= i < items.len() implies (#[trigger] items[i]).position() == if i == 0 {
        19int
    } else if i == 1 {
        92
    } else if i == 2 {
        93
    } else if i == 3 {
        102
    } else if i == 4 {
        103
    } else {
        FIRST_PRIZE + i - 5
    } by {
        if i >= 5 {
            FillerItem::lemma_position_at(FIRST_PRIZE + i - 5);
        }
    }
    assert forall|k: int| 0 <= k < 100 implies (#[trigger] maiamai_items()[k]).position() == FIRST_MAIAMAI + k by {
        FillerItem::lemma_position_at(FIRST_MAIAMAI + k);
    }
    assert forall|i: int| 0 <= i < items.len() implies !shop_good(#[trigger] items[i], logic)
        && !maiamai_items().contains(items[i]) by {
        if maiamai_items().contains(items[i]) {
            let k = choose|k: int| 0 <= k < maiamai_items().len() && maiamai_items()[k] == items[i];
            assert(maiamai_items()[k].position() == FIRST_MAIAMAI + k);
        }
    }
    assert forall|i: int, j: int| 0 <= i < j < items.len() implies #[trigger] items[i] != #[trigger] items[j] by {
        assert(items[i].position() != items[j].position());
    }
}

/// The items bound before anything is drawn lie on checks that may hold
/// them.
proof fn lemma_fixed_fit(graph: &WorldGraph, slots: Seq<Option<FillerItem>>, logic: Logic)
    requires
        slots.len() == graph.checks@.len(),
    ensures
        fitly_changed(graph, slots, bind_all(graph, slots, fixed_names(logic), fixed_items(logic))),
        fixed_hold(graph, bind_all(graph, slots, fixed_names(logic), fixed_items(logic)), logic),
{
    let names = fixed_names(logic);
    let items = fixed_items(logic);
    let after = bind_all(graph, slots, names, items);
    lemma_fixed_names_differ(logic);
    lemma_bind_all(graph, slots, names, items);
    assert forall|c: int| 0 <= c < slots.len() && (#[trigger] after[c]) != slots[c] implies after[c] is Some
        && fits(graph, c, after[c]->0) by {
        let k = choose|k: int|
            0 <= k < names.len() && is_named(graph, c, #[trigger] names[k]) && after[c] == Some(items[k]);
        lemma_named(graph, c, names[k]);
        items[k].lemma_dungeon_local();
        if k >= 5 {
            lemma_prize_names(k - 5);
            FillerItem::lemma_position_at(FIRST_PRIZE + (k - 5));
            assert(names[k] == prize_names()[k - 5]);
        }
    }
}

/// Binds the items that never vary to their checks and takes them out of
/// the pool; unless the dungeon prizes are randomized, the ten prizes too.
fn place_fixed(
    graph: &WorldGraph,
    check_map: &mut CheckMap,
    settings: &Settings,
    progression: &mut Vec<FillerItem>,
)
    ensures
        final(check_map)@ == bind_all(
            graph,
            old(check_map)@,
            fixed_names(settings.logic),
            fixed_items(settings.logic),
        ),
        final(progression)@ == without_all(old(progression)@, fixed_items(settings.logic)),
{
    let mut names: Vec<&'static str> = Vec::new();
    let mut items: Vec<FillerItem> = Vec::new();
    names.push("Shore");
    items.push(FillerItem::LetterInABottle);
    names.push("Cucco Dungeon");
    items.push(FillerItem::RupeeSilver39);
    names.push("[TR] (1F) Under Center");
    items.push(FillerItem::RupeeSilver40);
    names.push("[TR] (B1) Under Center");
    items.push(FillerItem::RupeeGold09);
    names.push("[PD] (2F) South Hidden Room");
    items.push(FillerItem::RupeeGold10);
    assert(items@ =~= static_items());
    if !settings.logic.randomize_dungeon_prizes {
        names.push("Eastern Palace Prize");
        names.push("House of Gales Prize");
        names.push("Tower of Hera Prize");
        names.push("Dark Palace Prize");
        names.push("Swamp Palace Prize");
        names.push("Skull Woods Prize");
        names.push("Thieves' Hideout Prize");
        names.push("Turtle Rock Prize");
        names.push("Desert Palace Prize");
        names.push("Ice Ruins Prize");
        push_run(&mut items, FIRST_PRIZE, 10);
    }
    let ghost wanted = fixed_names(settings.logic);
    let ghost given = fixed_items(settings.logic);
    assert(items@ =~= given);
    assert(names@.len() == wanted.len());
    assert(forall|k: int| 0 <= k < names@.len() ==> (#[trigger] names@[k])@ == wanted[k]);
    let ghost slots0 = check_map@;
    let ghost pool0 = progression@;
    let mut k: usize = 0;
    while k < names.len()
        invariant
            k <= names@.len(),
            names@.len() == wanted.len(),
            items@ == given,
            wanted.len() == given.len(),
            forall|i: int| 0 <= i < names@.len() ==> (#[trigger] names@[i])@ == wanted[i],
            check_map@ == bind_all(graph, slots0, wanted.subrange(0, k as int), given.subrange(0, k as int)),
            progression@ == without_all(pool0, given.subrange(0, k as int)),
        decreases names@.len() - k,
    {
        proof {
            lemma_bind_all_step(graph, slots0, pool0, wanted, given, k as int);
        }
        place_static(graph, check_map, progression, items[k], names[k]);
        k += 1;
    }
    proof {
        assert(wanted.subrange(0, wanted.len() as int) =~= wanted);
        assert(given.subrange(0, given.len() as int) =~= given);
    }
}

/// Whether the item is one of the weapons that the shop may be assured
/// of.
pub open spec fn weapon(item: FillerItem, logic: Logic) -> bool {
    match item {
        FillerItem::Bow01
        | FillerItem::Bombs01
        | FillerItem::FireRod01
        | FillerItem::IceRod01
        | FillerItem::Hammer01 => true,
        FillerItem::Sword01 | FillerItem::Sword02 | FillerItem::Sword03 | FillerItem::Sword04 => !logic.swordless_mode,
        FillerItem::Lamp01 | FillerItem::Net01 => logic.mode != LogicMode::Normal,
        _ => false,
    }
}

/// Whether the item is one that the settings put in the castle or in the
/// shop.
pub open spec fn shop_good(item: FillerItem, logic: Logic) -> bool {
    ||| logic.bow_of_light_in_castle && item == FillerItem::BowOfLight
    ||| logic.assured_weapon && weapon(item, logic)
    ||| logic.bell_in_shop && item == FillerItem::Bell
    ||| logic.pouch_in_shop && item == FillerItem::Pouch
    ||| logic.boots_in_shop && item == FillerItem::PegasusBoots
}

/// Whether the pool holds every item that the settings put in the castle
/// or in the shop.
pub open spec fn shop_stock(pool: Seq<FillerItem>, logic: Logic) -> bool {
    forall|x: FillerItem| #[trigger] shop_good(x, logic) ==> in_pool(pool, x)
}

/// Whether the item is one that the settings may put in the castle or in
/// the shop.
pub open spec fn shelved(item: FillerItem) -> bool {
    item.position() < FIRST_PRIZE
}

/// The number of items that the settings put in the shop.
pub open spec fn shop_demand(logic: Logic) -> nat {
    (if logic.assured_weapon { 1nat } else { 0nat }) + (if logic.bell_in_shop { 1nat } else { 0nat }) + (
    if logic.pouch_in_shop { 1nat } else { 0nat }) + (if logic.boots_in_shop { 1nat } else { 0nat })
}

/// Whether the castle and the shop hold what the settings put there: the
/// castle the bow of light, the shop the bell, the pouch, the boots and one
/// of the weapons.
pub open spec fn shelves_hold(graph: &WorldGraph, slots: Seq<Option<FillerItem>>, logic: Logic) -> bool {
    &&& logic.bow_of_light_in_castle ==> placed_on(graph, slots, Spot::Castle, FillerItem::BowOfLight)
    &&& logic.assured_weapon ==> exists|item: FillerItem|
        weapon(item, logic) && #[trigger] placed_on(graph, slots, Spot::Shop, item)
    &&& logic.bell_in_shop ==> placed_on(graph, slots, Spot::Shop, FillerItem::Bell)
    &&& logic.pouch_in_shop ==> placed_on(graph, slots, Spot::Shop, FillerItem::Pouch)
    &&& logic.boots_in_shop ==> placed_on(graph, slots, Spot::Shop, FillerItem::PegasusBoots)
}

/// Whether the castle and the shop have taken what the settings put
/// there: each item lies on a check of its kind that held nothing on the
/// check map `before`, and has left the pool.
pub open spec fn shelves_filled(
    graph: &WorldGraph,
    before: Seq<Option<FillerItem>>,
    after: Seq<Option<FillerItem>>,
    pool: Seq<FillerItem>,
    logic: Logic,
) -> bool {
    &&& logic.bow_of_light_in_castle ==> newly_on(graph, before, after, Spot::Castle, FillerItem::BowOfLight)
        && !in_pool(pool, FillerItem::BowOfLight)
    &&& logic.assured_weapon ==> exists|item: FillerItem|
        weapon(item, logic) && #[trigger] newly_on(graph, before, after, Spot::Shop, item) && !in_pool(pool, item)
    &&& logic.bell_in_shop ==> newly_on(graph, before, after, Spot::Shop, FillerItem::Bell) && !in_pool(
        pool,
        FillerItem::Bell,
    )
    &&& logic.pouch_in_shop ==> newly_on(graph, before, after, Spot::Shop, FillerItem::Pouch) && !in_pool(
        pool,
        FillerItem::Pouch,
    )
    &&& logic.boots_in_shop ==> newly_on(graph, before, after, Spot::Shop, FillerItem::PegasusBoots) && !in_pool(
        pool,
        FillerItem::PegasusBoots,
    )
}

/// What the castle and the shop have taken, they hold still when checks
/// of other kinds are bound and other items leave the pool; and a check
/// that held nothing then held nothing before, if between the two check
/// maps checks were only bound.
proof fn lemma_shelves_filled_stay(
    graph: &WorldGraph,
    first: Seq<Option<FillerItem>>,
    before: Seq<Option<FillerItem>>,
    mid: Seq<Option<FillerItem>>,
    after: Seq<Option<FillerItem>>,
    pool: Seq<FillerItem>,
    rest: Seq<FillerItem>,
    logic: Logic,
)
    requires
        shelves_filled(graph, before, mid, pool, logic),
        first.len() == before.len(),
        after.len() == mid.len(),
        forall|c: int| 0 <= c < before.len() && (#[trigger] before[c]) is None ==> first[c] is None,
        forall|c: int|
            0 <= c < mid.len() && c < graph.checks@.len() && (Spot::Castle.holds(graph.checks@[c].name@)
                || Spot::Shop.holds(graph.checks@[c].name@)) && mid[c] is Some ==> #[trigger] after[c] == mid[c],
        forall|x: FillerItem| #[trigger] shop_good(x, logic) && !in_pool(pool, x) ==> !in_pool(rest, x),
    ensures
        shelves_filled(graph, first, after, rest, logic),
{
    if logic.bow_of_light_in_castle {
        lemma_newly_on_moved(graph, first, before, mid, after, Spot::Castle, FillerItem::BowOfLight);
        assert(shop_good(FillerItem::BowOfLight, logic));
    }
    if logic.assured_weapon {
        let item = choose|item: FillerItem|
            weapon(item, logic) && #[trigger] newly_on(graph, before, mid, Spot::Shop, item) && !in_pool(
                pool,
                item,
            );
        lemma_newly_on_moved(graph, first, before, mid, after, Spot::Shop, item);
        assert(shop_good(item, logic));
    }
    if logic.bell_in_shop {
        lemma_newly_on_moved(graph, first, before, mid, after, Spot::Shop, FillerItem::Bell);
        assert(shop_good(FillerItem::Bell, logic));
    }
    if logic.pouch_in_shop {
        lemma_newly_on_moved(graph, first, before, mid, after, Spot::Shop, FillerItem::Pouch);
        assert(shop_good(FillerItem::Pouch, logic));
    }
    if logic.boots_in_shop {
        lemma_newly_on_moved(graph, first, before, mid, after, Spot::Shop, FillerItem::PegasusBoots);
        assert(shop_good(FillerItem::PegasusBoots, logic));
    }
}

/// An item that lies newly on a check of a kind lies there still when
/// checks of that kind that hold an item stay as they are, and the check
/// held nothing on an earlier check map on which it was not bound either.
proof fn lemma_newly_on_moved(
    graph: &WorldGraph,
    first: Seq<Option<FillerItem>>,
    before: Seq<Option<FillerItem>>,
    mid: Seq<Option<FillerItem>>,
    after: Seq<Option<FillerItem>>,
    spot: Spot,
    item: FillerItem,
)
    requires
        newly_on(graph, before, mid, spot, item),
        first.len() == before.len(),
        after.len() == mid.len(),
        forall|c: int| 0 <= c < before.len() && (#[trigger] before[c]) is None ==> first[c] is None,
        forall|c: int|
            0 <= c < mid.len() && c < graph.checks@.len() && spot.holds(graph.checks@[c].name@)
                && mid[c] is Some ==> #[trigger] after[c] == mid[c],
    ensures
        newly_on(graph, first, after, spot, item),
{
    let c = choose|c: int|
        0 <= c < graph.checks@.len() && c < before.len() && c < mid.len() && spot.holds(graph.checks@[c].name@)
            && before[c] is None && #[trigger] mid[c] == Some(item);
    assert(first[c] is None);
    assert(after[c] == Some(item));
}

/// What the castle and the shop hold, they hold still when checks of
/// other kinds are bound.
pub proof fn lemma_shelves_stay(
    graph: &WorldGraph,
    before: Seq<Option<FillerItem>>,
    after: Seq<Option<FillerItem>>,
    logic: Logic,
)
    requires
        shelves_hold(graph, before, logic),
        after.len() == before.len(),
        forall|c: int|
            0 <= c < before.len() && c < graph.checks@.len() && (Spot::Castle.holds(graph.checks@[c].name@)
                || Spot::Shop.holds(graph.checks@[c].name@)) && before[c] is Some ==> #[trigger] after[c]
                == before[c],
    ensures
        shelves_hold(graph, after, logic),
{
    if logic.bow_of_light_in_castle {
        lemma_placed_on_stays(graph, before, after, Spot::Castle, FillerItem::BowOfLight);
    }
    if logic.assured_weapon {
        let item = choose|item: FillerItem|
            weapon(item, logic) && #[trigger] placed_on(graph, before, Spot::Shop, item);
        lemma_placed_on_stays(graph, before, after, Spot::Shop, item);
    }
    if logic.bell_in_shop {
        lemma_placed_on_stays(graph, before, after, Spot::Shop, FillerItem::Bell);
    }
    if logic.pouch_in_shop {
        lemma_placed_on_stays(graph, before, after, Spot::Shop, FillerItem::Pouch);
    }
    if logic.boots_in_shop {
        lemma_placed_on_stays(graph, before, after, Spot::Shop, FillerItem::PegasusBoots);
    }
}

/// Items put in the castle or in the shop lie on checks that may hold them.
proof fn lemma_shelved_fit(graph: &WorldGraph, before: Seq<Option<FillerItem>>, after: Seq<Option<FillerItem>>)
    requires
        after.len() == before.len(),
        forall|c: int|
            0 <= c < before.len() && (#[trigger] after[c]) != before[c] ==> after[c] is Some && shelved(
                after[c]->0,
            ),
    ensures
        fitly_changed(graph, before, after),
{
    assert forall|c: int| 0 <= c < before.len() && (#[trigger] after[c]) != before[c] implies after[c] is Some
        && fits(graph, c, after[c]->0) by {
        (after[c]->0).lemma_dungeon_local();
    }
}

/// Binds the item to one of the listed checks, drawn at random, which
/// leaves the list, and takes the item out of the pool. The answer is the
/// check. With an empty list nothing changes.
fn place_in_spot(
    graph: &WorldGraph,
    spot_positions: &mut Vec<usize>,
    item: FillerItem,
    check_map: &mut CheckMap,
    pool: &mut Vec<FillerItem>,
    rng: &mut StdRng,
    Ghost(spot): Ghost<Spot>,
) -> (r: Result<usize, FillError>)
    requires
        old(check_map)@.len() == graph.checks@.len(),
        listed(graph, old(check_map)@, old(spot_positions)@, spot),
    ensures
        r is Ok <==> old(spot_positions)@.len() > 0,
        r matches Err(e) ==> e == FillError::NoPlace(item) && final(check_map)@ == old(check_map)@
            && final(pool)@ == old(pool)@ && final(spot_positions)@ == old(spot_positions)@,
        r matches Ok(check) ==> {
            &&& vacant(graph, old(check_map)@, check as int)
            &&& spot.holds(graph.checks@[check as int].name@)
            &&& final(check_map)@ == old(check_map)@.update(check as int, Some(item))
            &&& final(pool)@ == without(old(pool)@, item)
            &&& final(spot_positions)@.len() == old(spot_positions)@.len() - 1
            &&& listed(graph, final(check_map)@, final(spot_positions)@, spot)
            &&& in_pool(old(pool)@, item) ==> spent(
                old(check_map)@,
                old(pool)@,
                final(check_map)@,
                final(pool)@,
            )
            &&& forall|x: FillerItem| x != item ==> #[trigger] in_pool(final(pool)@, x) == in_pool(old(pool)@, x)
            &&& !in_pool(final(pool)@, item)
        },
{
    if spot_positions.len() == 0 {
        return Err(FillError::NoPlace(item));
    }
    let index = draw_below(rng, spot_positions.len());
    let ghost before = spot_positions@;
    place_item_at(item, spot_positions, index, check_map);
    let check = spot_positions.remove(index);
    remove_item(pool, item);
    proof {
        if in_pool(old(pool)@, item) {
            lemma_spent(old(check_map)@, check_map@, item, old(pool)@);
        }
        assert forall|x: FillerItem| x != item implies #[trigger] in_pool(pool@, x) == in_pool(old(pool)@, x) by {
            lemma_without_count(old(pool)@, item, x);
        }
        lemma_without_count(old(pool)@, item, item);
        let after = spot_positions@;
        assert forall|i: int| 0 <= i < after.len() implies vacant(
            graph,
            check_map@,
            (#[trigger] after[i]) as int,
        ) && spot.holds(graph.checks@[after[i] as int].name@) by {
            let a = if i < index { i } else { i + 1 };
            assert(after[i] == before[a]);
        }
        assert(after.no_duplicates()) by {
            assert forall|i: int, j: int| 0 <= i < after.len() && 0 <= j < after.len() && i != j implies after[i]
                != after[j] by {
                let a = if i < index { i } else { i + 1 };
                let b = if j < index { j } else { j + 1 };
                assert(after[i] == before[a] && after[j] == before[b]);
            }
        }
    }
    Ok(check)
}

/// Puts the bow of light in the castle and a weapon, the bell, the pouch
/// and the boots in the shop, each where the settings say so, in this
/// order: the item is bound to a vacant check of the castle or of the shop,
/// drawn at random, and leaves the pool. The weapon is drawn at random
/// among bow, bombs, the two rods and the hammer, the swords unless the run
/// is swordless, and lamp and net unless the logic is normal. An item for
/// which no vacant check is left is an error.
#[verifier::rlimit(60)]
fn place_in_castle_and_shop(
    graph: &WorldGraph,
    check_map: &mut CheckMap,
    settings: &Settings,
    rng: &mut StdRng,
    progression: &mut Vec<FillerItem>,
) -> (r: Result<(), FillError>)
    requires
        old(check_map)@.len() == graph.checks@.len(),
    ensures
        keeps(old(check_map)@, final(check_map)@),
        forall|c: int|
            0 <= c < old(check_map)@.len() && (#[trigger] final(check_map)@[c]) != old(check_map)@[c] ==> {
                &&& final(check_map)@[c] is Some
                &&& shelved(final(check_map)@[c]->0)
            },
        r is Ok <==> {
            &&& settings.logic.bow_of_light_in_castle ==> spots(
                graph,
                old(check_map)@,
                Spot::Castle,
                true,
            ).len() > 0
            &&& spots(graph, old(check_map)@, Spot::Shop, true).len() >= shop_demand(settings.logic)
        },
        r matches Err(e) ==> e matches FillError::NoPlace(item) && (item == FillerItem::BowOfLight <==> (
        settings.logic.bow_of_light_in_castle && spots(graph, old(check_map)@, Spot::Castle, true).len()
            == 0)),
        r is Ok ==> shelves_hold(graph, final(check_map)@, settings.logic),
        r is Ok ==> shelves_filled(
            graph,
            old(check_map)@,
            final(check_map)@,
            final(progression)@,
            settings.logic,
        ),
        forall|i: int|
            0 <= i < final(progression)@.len() ==> old(progression)@.contains(#[trigger] final(progression)@[i]),
        shop_stock(old(progression)@, settings.logic) ==> spent(
            old(check_map)@,
            old(progression)@,
            final(check_map)@,
            final(progression)@,
        ),
        forall|x: FillerItem|
            !shop_good(x, settings.logic) ==> #[trigger] in_pool(final(progression)@, x) == in_pool(
                old(progression)@,
                x,
            ),
{
    let ghost slots0 = check_map@;
    let ghost pool0 = progression@;
    let ghost logic = settings.logic;
    let mut bow_light_positions = find_spots(graph, check_map, Spot::Castle, true);
    let mut shop_positions = find_spots(graph, check_map, Spot::Shop, true);
    proof {
        lemma_spots(graph, slots0, Spot::Castle, true);
        lemma_spots(graph, slots0, Spot::Shop, true);
    }
    if settings.logic.bow_of_light_in_castle {
        let ghost slots = check_map@;
        let ghost pool = progression@;
        match place_in_spot(
            graph,
            &mut bow_light_positions,
            FillerItem::BowOfLight,
            check_map,
            progression,
            rng,
            Ghost(Spot::Castle),
        ) {
            Ok(check) => {
                proof {
                    lemma_castle_not_shop(graph.checks@[check as int].name@);
                    lemma_listed_apart(
                        graph,
                        slots,
                        shop_positions@,
                        Spot::Shop,
                        check as int,
                        FillerItem::BowOfLight,
                    );
                    lemma_without_within(pool, FillerItem::BowOfLight, pool0);
                    assert(shop_good(FillerItem::BowOfLight, logic));
                    lemma_newly_on(graph, slots0, slots, check as int, Spot::Castle, FillerItem::BowOfLight);
                }
            },
            Err(e) => {
                return Err(e);
            },
        }
    }
    let ghost mut chosen: FillerItem = FillerItem::Empty;
    assert(shop_stock(pool0, logic) ==> spent(slots0, pool0, check_map@, progression@));
    assert(keeps(slots0, check_map@));
    assert(logic.bow_of_light_in_castle ==> newly_on(graph, slots0, check_map@, Spot::Castle, FillerItem::BowOfLight));
    if settings.logic.assured_weapon {
        let mut weapons: Vec<FillerItem> = Vec::new();
        weapons.push(FillerItem::Bow01);
        weapons.push(FillerItem::Bombs01);
        weapons.push(FillerItem::FireRod01);
        weapons.push(FillerItem::IceRod01);
        weapons.push(FillerItem::Hammer01);
        if !settings.logic.swordless_mode {
            weapons.push(FillerItem::Sword01);
            weapons.push(FillerItem::Sword02);
            weapons.push(FillerItem::Sword03);
            weapons.push(FillerItem::Sword04);
        }
        match settings.logic.mode {
            LogicMode::Normal => {},
            _ => {
                weapons.push(FillerItem::Lamp01);
                weapons.push(FillerItem::Net01);
            },
        }
        assert(forall|i: int| 0 <= i < weapons@.len() ==> shelved(#[trigger] weapons@[i]));
        assert(forall|i: int| 0 <= i < weapons@.len() ==> weapon(#[trigger] weapons@[i], logic));
        let weapon = weapons[draw_below(rng, weapons.len())];
        let ghost pool = progression@;
        let ghost slots = check_map@;
        match place_in_spot(
            graph,
            &mut shop_positions,
            weapon,
            check_map,
            progression,
            rng,
            Ghost(Spot::Shop),
        ) {
            Ok(check) => {
                proof {
                    lemma_without_within(pool, weapon, pool0);
                    if shop_stock(pool0, logic) {
                        assert(shop_good(weapon, logic));
                        lemma_spent_twice(slots0, pool0, slots, pool, check_map@, progression@);
                    }
                    chosen = weapon;
                    lemma_newly_on(graph, slots0, slots, check as int, Spot::Shop, weapon);
                    if logic.bow_of_light_in_castle {
                        lemma_newly_on_stays(graph, slots0, slots, check_map@, Spot::Castle, FillerItem::BowOfLight);
                    }
                }
            },
            Err(e) => {
                return Err(e);
            },
        }
    }
    assert(shop_stock(pool0, logic) ==> spent(slots0, pool0, check_map@, progression@));
    assert(keeps(slots0, check_map@));
    assert(logic.bow_of_light_in_castle ==> newly_on(graph, slots0, check_map@, Spot::Castle, FillerItem::BowOfLight));
    assert(logic.assured_weapon ==> weapon(chosen, logic) && newly_on(graph, slots0, check_map@, Spot::Shop, chosen));
    if settings.logic.bell_in_shop {
        let ghost pool = progression@;
        let ghost slots = check_map@;
        match place_in_spot(
            graph,
            &mut shop_positions,
            FillerItem::Bell,
            check_map,
            progression,
            rng,
            Ghost(Spot::Shop),
        ) {
            Ok(check) => {
                proof {
                    lemma_without_within(pool, FillerItem::Bell, pool0);
                    if shop_stock(pool0, logic) {
                        assert(shop_good(FillerItem::Bell, logic));
                        lemma_spent_twice(slots0, pool0, slots, pool, check_map@, progression@);
                    }
                    lemma_newly_on(graph, slots0, slots, check as int, Spot::Shop, FillerItem::Bell);
                    if logic.bow_of_light_in_castle {
                        lemma_newly_on_stays(graph, slots0, slots, check_map@, Spot::Castle, FillerItem::BowOfLight);
                    }
                    if logic.assured_weapon {
                        lemma_newly_on_stays(graph, slots0, slots, check_map@, Spot::Shop, chosen);
                    }
                }
            },
            Err(e) => {
                return Err(e);
            },
        }
    }
    assert(shop_stock(pool0, logic) ==> spent(slots0, pool0, check_map@, progression@));
    assert(keeps(slots0, check_map@));
    assert(logic.bow_of_light_in_castle ==> newly_on(graph, slots0, check_map@, Spot::Castle, FillerItem::BowOfLight));
    assert(logic.assured_weapon ==> weapon(chosen, logic) && newly_on(graph, slots0, check_map@, Spot::Shop, chosen));
    assert(logic.bell_in_shop ==> newly_on(graph, slots0, check_map@, Spot::Shop, FillerItem::Bell));
    if settings.logic.pouch_in_shop {
        let ghost pool = progression@;
        let ghost slots = check_map@;
        match place_in_spot(
            graph,
            &mut shop_positions,
            FillerItem::Pouch,
            check_map,
            progression,
            rng,
            Ghost(Spot::Shop),
        ) {
            Ok(check) => {
                proof {
                    lemma_without_within(pool, FillerItem::Pouch, pool0);
                    if shop_stock(pool0, logic) {
                        assert(shop_good(FillerItem::Pouch, logic));
                        lemma_spent_twice(slots0, pool0, slots, pool, check_map@, progression@);
                    }
                    lemma_newly_on(graph, slots0, slots, check as int, Spot::Shop, FillerItem::Pouch);
                    if logic.bow_of_light_in_castle {
                        lemma_newly_on_stays(graph, slots0, slots, check_map@, Spot::Castle, FillerItem::BowOfLight);
                    }
                    if logic.assured_weapon {
                        lemma_newly_on_stays(graph, slots0, slots, check_map@, Spot::Shop, chosen);
                    }
                    if logic.bell_in_shop {
                        lemma_newly_on_stays(graph, slots0, slots, check_map@, Spot::Shop, FillerItem::Bell);
                    }
                }
            },
            Err(e) => {
                return Err(e);
            },
        }
    }
    assert(shop_stock(pool0, logic) ==> spent(slots0, pool0, check_map@, progression@));
    assert(keeps(slots0, check_map@));
    assert(logic.bow_of_light_in_castle ==> newly_on(graph, slots0, check_map@, Spot::Castle, FillerItem::BowOfLight));
    assert(logic.assured_weapon ==> weapon(chosen, logic) && newly_on(graph, slots0, check_map@, Spot::Shop, chosen));
    assert(logic.bell_in_shop ==> newly_on(graph, slots0, check_map@, Spot::Shop, FillerItem::Bell));
    assert(logic.pouch_in_shop ==> newly_on(graph, slots0, check_map@, Spot::Shop, FillerItem::Pouch));
    if settings.logic.boots_in_shop {
        let ghost pool = progression@;
        let ghost slots = check_map@;
        match place_in_spot(
            graph,
            &mut shop_positions,
            FillerItem::PegasusBoots,
            check_map,
            progression,
            rng,
            Ghost(Spot::Shop),
        ) {
            Ok(check) => {
                proof {
                    lemma_without_within(pool, FillerItem::PegasusBoots, pool0);
                    if shop_stock(pool0, logic) {
                        assert(shop_good(FillerItem::PegasusBoots, logic));
                        lemma_spent_twice(slots0, pool0, slots, pool, check_map@, progression@);
                    }
                    lemma_newly_on(graph, slots0, slots, check as int, Spot::Shop, FillerItem::PegasusBoots);
                    if logic.bow_of_light_in_castle {
                        lemma_newly_on_stays(graph, slots0, slots, check_map@, Spot::Castle, FillerItem::BowOfLight);
                    }
                    if logic.assured_weapon {
                        lemma_newly_on_stays(graph, slots0, slots, check_map@, Spot::Shop, chosen);
                    }
                    if logic.bell_in_shop {
                        lemma_newly_on_stays(graph, slots0, slots, check_map@, Spot::Shop, FillerItem::Bell);
                    }
                    if logic.pouch_in_shop {
                        lemma_newly_on_stays(graph, slots0, slots, check_map@, Spot::Shop, FillerItem::Pouch);
                    }
                }
            },
            Err(e) => {
                return Err(e);
            },
        }
    }
    proof {
        let last = check_map@;
        if logic.bow_of_light_in_castle {
            lemma_newly_on_stays(graph, slots0, last, last, Spot::Castle, FillerItem::BowOfLight);
        }
        if logic.assured_weapon {
            assert(weapon(chosen, logic) && newly_on(graph, slots0, last, Spot::Shop, chosen));
            lemma_newly_on_stays(graph, slots0, last, last, Spot::Shop, chosen);
            assert(shop_good(chosen, logic));
            assert(!in_pool(progression@, chosen));
        }
        if logic.bell_in_shop {
            lemma_newly_on_stays(graph, slots0, last, last, Spot::Shop, FillerItem::Bell);
        }
        if logic.pouch_in_shop {
            lemma_newly_on_stays(graph, slots0, last, last, Spot::Shop, FillerItem::Pouch);
        }
        if logic.boots_in_shop {
            lemma_newly_on_stays(graph, slots0, last, last, Spot::Shop, FillerItem::PegasusBoots);
        }
    }
    Ok(())
}

/// Leaves the minigames out of the game's logic, where the settings say
/// so: a filler drawn at random is bound to each of them, and where the
/// maiamai are shuffled also to the two maiamai that only a minigame
/// gives. With too little filler the answer is `OutOfTrash`.
#[verifier::loop_isolation(false)]
fn exclude_minigames(
    graph: &WorldGraph,
    check_map: &mut CheckMap,
    settings: &Settings,
    rng: &mut StdRng,
    trash: &mut Vec<FillerItem>,
) -> (r: Result<(), FillError>)
    requires
        old(check_map)@.len() == graph.checks@.len(),
    ensures
        r is Ok <==> !settings.logic.minigames_excluded || old(trash)@.len() >= minigame_names(
            settings.logic,
        ).len(),
        r matches Err(e) ==> e == FillError::OutOfTrash,
        changed_by_name(
            graph,
            old(check_map)@,
            final(check_map)@,
            minigame_names(settings.logic),
            old(trash)@,
        ),
        forall|i: int| 0 <= i < final(trash)@.len() ==> old(trash)@.contains(#[trigger] final(trash)@[i]),
        !settings.logic.minigames_excluded ==> final(check_map)@ == old(check_map)@ && final(trash)@ == old(
            trash,
        )@,
        r is Ok && settings.logic.minigames_excluded ==> final(trash)@.len() + minigame_names(
            settings.logic,
        ).len() == old(trash)@.len(),
        spent(old(check_map)@, old(trash)@, final(check_map)@, final(trash)@),
        r is Ok && settings.logic.minigames_excluded ==> hold_from(
            graph,
            final(check_map)@,
            minigame_names(settings.logic),
            old(trash)@,
        ),
{
    if !settings.logic.minigames_excluded {
        return Ok(());
    }
    let mut names: Vec<&'static str> = Vec::new();
    names.push("Cucco Ranch");
    names.push("Hyrule Hotfoot");
    names.push("Rupee Rush (Hyrule)");
    names.push("Rupee Rush (Lorule)");
    names.push("Octoball Derby");
    names.push("Treacherous Tower (Intermediate)");
    if settings.logic.maiamai_madness {
        names.push("[Mai] Hyrule Rupee Rush Wall");
        names.push("[Mai] Lorule Rupee Rush Wall");
    }
    let ghost wanted = minigame_names(settings.logic);
    let ghost slots0 = check_map@;
    let ghost trash0 = trash@;
    assert(names@.len() == wanted.len());
    assert(forall|k: int| 0 <= k < names@.len() ==> (#[trigger] names@[k])@ == wanted[k]);
    let mut k: usize = 0;
    while k < names.len()
        invariant
            k <= names@.len(),
            names@.len() == wanted.len(),
            forall|i: int| 0 <= i < names@.len() ==> (#[trigger] names@[i])@ == wanted[i],
            check_map@.len() == graph.checks@.len(),
            slots0.len() == graph.checks@.len(),
            changed_by_name(graph, slots0, check_map@, wanted, trash0),
            forall|i: int| 0 <= i < trash@.len() ==> trash0.contains(#[trigger] trash@[i]),
            trash@.len() + k == trash0.len(),
            spent(slots0, trash0, check_map@, trash@),
            hold_from(graph, check_map@, wanted.subrange(0, k as int), trash0),
        decreases names@.len() - k,
    {
        let ghost slots = check_map@;
        let ghost pool = trash@;
        let index = match exclude(graph, names[k], rng, check_map, trash) {
            Ok(index) => index,
            Err(e) => {
                return Err(e);
            },
        };
        proof {
            lemma_remove_within(pool, index as int, trash0);
            lemma_changed_by_name_step(graph, slots0, slots, wanted, trash0, k as int, pool[index as int]);
            lemma_bind_named_is_update(graph, slots, wanted[k as int], pool[index as int]);
            lemma_bind_from_trash(slots, check_map@, pool, index as int);
            lemma_spent_twice(slots0, trash0, slots, pool, check_map@, trash@);
            let shorter = wanted.subrange(0, k as int);
            let longer = wanted.subrange(0, k + 1);
            assert forall|j: int, c: int|
                0 <= j < longer.len() && 0 <= c < check_map@.len() && #[trigger] is_named(
                    graph,
                    c,
                    longer[j],
                ) implies (#[trigger] check_map@[c]) is Some && trash0.contains(check_map@[c]->0) by {
                if j < k {
                    assert(is_named(graph, c, shorter[j]));
                    assert(slots[c] is Some);
                }
            }
        }
        k += 1;
    }
    assert(wanted.subrange(0, wanted.len() as int) =~= wanted);
    Ok(())
}

/// Whether the checks where a maiamai hides hold the maiamai, the first
/// such check of the world graph the first maiamai of the catalogue, and
/// so on in order.
pub open spec fn maiamai_hold(graph: &WorldGraph, slots: Seq<Option<FillerItem>>) -> bool {
    let hides = spots(graph, slots, Spot::Maiamai, false);
    &&& hides.len() <= 100
    &&& forall|k: int| 0 <= k < hides.len() ==> slots[(#[trigger] hides[k]) as int] == Some(maiamai_items()[k])
}

/// Whether the maiamai that went to the checks where a maiamai hides have
/// left the pool.
pub open spec fn maiamai_gone(graph: &WorldGraph, slots: Seq<Option<FillerItem>>, pool: Seq<FillerItem>) -> bool {
    forall|k: int|
        0 <= k < spots(graph, slots, Spot::Maiamai, false).len() && k < 100 ==> !in_pool(
            pool,
            #[trigger] maiamai_items()[k],
        )
}

/// Whether the pool holds the hundred maiamai.
pub open spec fn maiamai_stock(pool: Seq<FillerItem>) -> bool {
    forall|k: int| 0 <= k < 100 ==> in_pool(pool, #[trigger] maiamai_items()[k])
}

/// A maiamai lies on any check that it is bound to.
proof fn lemma_maiamai_fit(graph: &WorldGraph, before: Seq<Option<FillerItem>>, after: Seq<Option<FillerItem>>)
    requires
        after.len() == before.len(),
        forall|c: int|
            0 <= c < before.len() && (#[trigger] after[c]) != before[c] ==> after[c] is Some
                && maiamai_items().contains(after[c]->0),
    ensures
        fitly_changed(graph, before, after),
{
    assert forall|c: int| 0 <= c < before.len() && (#[trigger] after[c]) != before[c] implies after[c] is Some
        && fits(graph, c, after[c]->0) by {
        let item = after[c]->0;
        let i = choose|i: int| 0 <= i < maiamai_items().len() && maiamai_items()[i] == item;
        FillerItem::lemma_position_at(FIRST_MAIAMAI + i);
        item.lemma_dungeon_local();
    }
}

/// Binds the maiamai, in catalogue order, to the checks where a maiamai
/// hides, in the order of the world graph, whatever those checks held,
/// and takes them out of the pool. A world with more than a hundred such
/// checks is an error, and nothing changes.
fn place_maiamai(graph: &WorldGraph, check_map: &mut CheckMap, progression: &mut Vec<FillerItem>) -> (r: Result<
    (),
    FillError,
>)
    requires
        old(check_map)@.len() == graph.checks@.len(),
    ensures
        r is Ok <==> spots(graph, old(check_map)@, Spot::Maiamai, false).len() <= 100,
        r matches Err(e) ==> e == FillError::OutOfMaiamai && final(check_map)@ == old(check_map)@
            && final(progression)@ == old(progression)@,
        final(check_map)@.len() == old(check_map)@.len(),
        forall|c: int|
            0 <= c < old(check_map)@.len() && (#[trigger] final(check_map)@[c]) != old(check_map)@[c] ==> {
                &&& Spot::Maiamai.holds(graph.checks@[c].name@)
                &&& final(check_map)@[c] is Some
                &&& maiamai_items().contains(final(check_map)@[c]->0)
            },
        r is Ok ==> maiamai_hold(graph, final(check_map)@),
        forall|i: int|
            0 <= i < final(progression)@.len() ==> old(progression)@.contains(#[trigger] final(progression)@[i]),
        maiamai_stock(old(progression)@) ==> spent(
            old(check_map)@,
            old(progression)@,
            final(check_map)@,
            final(progression)@,
        ),
        forall|x: FillerItem|
            !maiamai_items().contains(x) ==> #[trigger] in_pool(final(progression)@, x) == in_pool(
                old(progression)@,
                x,
            ),
        r is Ok ==> maiamai_gone(graph, final(check_map)@, final(progression)@),
{
    let maiamai_positions = find_spots(graph, check_map, Spot::Maiamai, false);
    let maiamai = maiamai_pool();
    if maiamai_positions.len() > 100 {
        return Err(FillError::OutOfMaiamai);
    }
    let ghost slots0 = check_map@;
    let ghost pool0 = progression@;
    let ghost hides = maiamai_positions@;
    proof {
        lemma_spots(graph, slots0, Spot::Maiamai, false);
    }
    let mut k: usize = 0;
    while k < maiamai_positions.len()
        invariant
            k <= maiamai_positions@.len(),
            hides == maiamai_positions@,
            hides == spots(graph, slots0, Spot::Maiamai, false),
            hides.len() <= 100,
            hides.no_duplicates(),
            forall|i: int|
                0 <= i < hides.len() ==> (#[trigger] hides[i]) < graph.checks@.len() && Spot::Maiamai.holds(
                    graph.checks@[hides[i] as int].name@,
                ),
            maiamai@ == maiamai_items(),
            check_map@.len() == graph.checks@.len(),
            slots0.len() == graph.checks@.len(),
            forall|i: int| 0 <= i < k ==> check_map@[(#[trigger] hides[i]) as int] == Some(maiamai_items()[i]),
            forall|c: int|
                0 <= c < slots0.len() && (#[trigger] check_map@[c]) != slots0[c] ==> {
                    &&& Spot::Maiamai.holds(graph.checks@[c].name@)
                    &&& check_map@[c] is Some
                    &&& maiamai_items().contains(check_map@[c]->0)
                },
            forall|i: int| 0 <= i < progression@.len() ==> pool0.contains(#[trigger] progression@[i]),
            maiamai_stock(pool0) ==> spent(slots0, pool0, check_map@, progression@),
            maiamai_stock(pool0) ==> forall|j: int| k <= j < 100 ==> in_pool(progression@, #[trigger] maiamai_items()[j]),
            forall|x: FillerItem| !maiamai_items().contains(x) ==> #[trigger] in_pool(progression@, x) == in_pool(pool0, x),
            forall|j: int| 0 <= j < k ==> !in_pool(progression@, #[trigger] maiamai_items()[j]),
        decreases maiamai_positions@.len() - k,
    {
        let item = maiamai[k];
        let ghost pool = progression@;
        let ghost slots = check_map@;
        place_item_at(item, &maiamai_positions, k, check_map);
        remove_item(progression, item);
        proof {
            assert(maiamai_items()[k as int] == item);
            assert forall|j: int| 0 <= j < k + 1 implies !in_pool(progression@, #[trigger] maiamai_items()[j]) by {
                lemma_without_count(pool, item, maiamai_items()[j]);
            }
            assert forall|x: FillerItem| !maiamai_items().contains(x) implies #[trigger] in_pool(progression@, x)
                == in_pool(pool0, x) by {
                assert(maiamai_items().contains(maiamai_items()[k as int]));
                lemma_without_count(pool, item, x);
                assert(in_pool(pool, x) == in_pool(pool0, x));
            }
            if maiamai_stock(pool0) {
                lemma_spent(slots, check_map@, item, pool);
                lemma_spent_twice(slots0, pool0, slots, pool, check_map@, progression@);
                assert forall|j: int| k + 1 <= j < 100 implies in_pool(progression@, #[trigger] maiamai_items()[j]) by {
                    FillerItem::lemma_position_at(FIRST_MAIAMAI + j);
                    FillerItem::lemma_position_at(FIRST_MAIAMAI + k);
                    assert(in_pool(pool, maiamai_items()[j]));
                }
            }
            assert forall|i: int| 0 <= i < progression@.len() implies pool0.contains(
                #[trigger] progression@[i],
            ) by {
                assert(progression@.contains(progression@[i]));
                pool.lemma_filter_contains_rev(is_not(item), progression@[i]);
            }
        }
        k += 1;
    }
    proof {
        assert(spots(graph, check_map@, Spot::Maiamai, false) =~= hides) by {
            assert(is_spot(graph, check_map@, Spot::Maiamai, false) =~= is_spot(
                graph,
                slots0,
                Spot::Maiamai,
                false,
            ));
        }
    }
    Ok(())
}

/// Whether there is room for what the settings place ahead: once the
/// items that never vary are bound, the castle has a vacant check for the
/// bow of light, the shop has as many vacant checks as it is to hold
/// items, the trash pool has a filler for each minigame, and no more than
/// a hundred checks wait for a maiamai.
pub open spec fn room_ahead(
    graph: &WorldGraph,
    slots: Seq<Option<FillerItem>>,
    logic: Logic,
    trash_count: nat,
) -> bool {
    let fixed = bind_all(graph, slots, fixed_names(logic), fixed_items(logic));
    &&& logic.bow_of_light_in_castle ==> spots(graph, fixed, Spot::Castle, true).len() > 0
    &&& spots(graph, fixed, Spot::Shop, true).len() >= shop_demand(logic)
    &&& logic.minigames_excluded ==> trash_count >= minigame_names(logic).len()
    &&& !logic.maiamai_madness ==> spots(graph, fixed, Spot::Maiamai, false).len() <= 100
}

/// Whether the error is the one that comes where there is no room for
/// what the settings place ahead: the first of these that holds decides.
/// Without a vacant check in the castle the bow of light has no place;
/// with too few in the shop one of the shop's items has none; then the
/// filler or the maiamai run out.
pub open spec fn ahead_error(
    graph: &WorldGraph,
    slots: Seq<Option<FillerItem>>,
    logic: Logic,
    trash_count: nat,
    e: FillError,
) -> bool {
    let fixed = bind_all(graph, slots, fixed_names(logic), fixed_items(logic));
    &&& !room_ahead(graph, slots, logic, trash_count)
    &&& if logic.bow_of_light_in_castle && spots(graph, fixed, Spot::Castle, true).len() == 0 {
        e == FillError::NoPlace(FillerItem::BowOfLight)
    } else if spots(graph, fixed, Spot::Shop, true).len() < shop_demand(logic) {
        e is NoPlace && e != FillError::NoPlace(FillerItem::BowOfLight)
    } else if logic.minigames_excluded && trash_count < minigame_names(logic).len() {
        e == FillError::OutOfTrash
    } else {
        e == FillError::OutOfMaiamai
    }
}

/// Whether the pool holds each item that the settings place ahead of the
/// fill.
pub open spec fn stocked(pool: Seq<FillerItem>, logic: Logic) -> bool {
    &&& forall|k: int| 0 <= k < fixed_items(logic).len() ==> in_pool(pool, #[trigger] fixed_items(logic)[k])
    &&& shop_stock(pool, logic)
    &&& !logic.maiamai_madness ==> maiamai_stock(pool)
}

/// What is in hand does not grow where first items of the progression
/// pool are spent and then filler of the trash pool.
proof fn lemma_in_play(
    slots0: Seq<Option<FillerItem>>,
    pool0: Seq<FillerItem>,
    trash0: Seq<FillerItem>,
    slots1: Seq<Option<FillerItem>>,
    pool1: Seq<FillerItem>,
    slots2: Seq<Option<FillerItem>>,
    trash2: Seq<FillerItem>,
)
    requires
        spent(slots0, pool0, slots1, pool1),
        spent(slots1, trash0, slots2, trash2),
    ensures
        in_play(slots2, pool1, trash2).subset_of(in_play(slots0, pool0, trash0)),
{
    assert forall|x: FillerItem| in_play(slots2, pool1, trash2).count(x) <= in_play(slots0, pool0, trash0).count(
        x,
    ) by {
        assert(bound_items(slots1).add(pool1.to_multiset()).count(x) <= bound_items(slots0).add(
            pool0.to_multiset(),
        ).count(x));
        assert(bound_items(slots2).add(trash2.to_multiset()).count(x) <= bound_items(slots1).add(
            trash0.to_multiset(),
        ).count(x));
    }
}

/// What is in hand does not grow where items of the progression pool are
/// spent.
proof fn lemma_in_play_on(
    slots0: Seq<Option<FillerItem>>,
    pool0: Seq<FillerItem>,
    trash0: Seq<FillerItem>,
    slots1: Seq<Option<FillerItem>>,
    pool1: Seq<FillerItem>,
    trash1: Seq<FillerItem>,
    slots2: Seq<Option<FillerItem>>,
    pool2: Seq<FillerItem>,
)
    requires
        in_play(slots1, pool1, trash1).subset_of(in_play(slots0, pool0, trash0)),
        spent(slots1, pool1, slots2, pool2),
    ensures
        in_play(slots2, pool2, trash1).subset_of(in_play(slots0, pool0, trash0)),
{
    assert forall|x: FillerItem| in_play(slots2, pool2, trash1).count(x) <= in_play(slots0, pool0, trash0).count(
        x,
    ) by {
        assert(in_play(slots1, pool1, trash1).count(x) <= in_play(slots0, pool0, trash0).count(x));
        assert(bound_items(slots2).add(pool2.to_multiset()).count(x) <= bound_items(slots1).add(
            pool1.to_multiset(),
        ).count(x));
    }
}

/// Places what the settings place ahead of the fill, in this order: the
/// items that never vary and, unless they are randomized, the dungeon
/// prizes; the bow of light in the castle; a weapon, the bell, the pouch
/// and the boots in the shop; filler on the minigames; the maiamai where
/// they hide, unless they are shuffled. What is placed leaves its pool.
pub fn preplace_items(
    graph: &WorldGraph,
    check_map: &mut CheckMap,
    settings: &Settings,
    rng: &mut StdRng,
    progression: &mut Vec<FillerItem>,
    trash: &mut Vec<FillerItem>,
) -> (r: Result<(), FillError>)
    requires
        old(check_map)@.len() == graph.checks@.len(),
    ensures
        final(check_map)@.len() == old(check_map)@.len(),
        r is Ok <==> room_ahead(graph, old(check_map)@, settings.logic, old(trash)@.len()),
        r matches Err(e) ==> ahead_error(
            graph,
            old(check_map)@,
            settings.logic,
            old(trash)@.len(),
            e,
        ),
        only_trash(old(trash)@) ==> fitly_changed(graph, old(check_map)@, final(check_map)@),
        r is Ok ==> fixed_hold(graph, final(check_map)@, settings.logic),
        r is Ok ==> shelves_hold(graph, final(check_map)@, settings.logic),
        r is Ok ==> shelves_filled(
            graph,
            old(check_map)@,
            final(check_map)@,
            final(progression)@,
            settings.logic,
        ),
        r is Ok ==> forall|k: int|
            0 <= k < fixed_items(settings.logic).len() ==> !in_pool(
                final(progression)@,
                #[trigger] fixed_items(settings.logic)[k],
            ),
        r is Ok && !settings.logic.maiamai_madness ==> maiamai_gone(
            graph,
            final(check_map)@,
            final(progression)@,
        ),
        r is Ok && settings.logic.minigames_excluded ==> hold_from(
            graph,
            final(check_map)@,
            minigame_names(settings.logic),
            old(trash)@,
        ),
        r is Ok && !settings.logic.maiamai_madness ==> maiamai_hold(graph, final(check_map)@),
        forall|i: int|
            0 <= i < final(progression)@.len() ==> old(progression)@.contains(#[trigger] final(progression)@[i]),
        forall|i: int| 0 <= i < final(trash)@.len() ==> old(trash)@.contains(#[trigger] final(trash)@[i]),
        r is Ok ==> final(trash)@.len() + (if settings.logic.minigames_excluded {
            minigame_names(settings.logic).len()
        } else {
            0nat
        }) == old(trash)@.len(),
        stocked(old(progression)@, settings.logic) ==> in_play(
            final(check_map)@,
            final(progression)@,
            final(trash)@,
        ).subset_of(in_play(old(check_map)@, old(progression)@, old(trash)@)),
        forall|x: FillerItem|
            !fixed_items(settings.logic).contains(x) && !shop_good(x, settings.logic)
                && !maiamai_items().contains(x) ==> #[trigger] in_pool(final(progression)@, x) == in_pool(
                old(progression)@,
                x,
            ),
{
    let ghost logic = settings.logic;
    let ghost slots0 = check_map@;
    let ghost pool0 = progression@;
    let ghost trash0 = trash@;
    place_fixed(graph, check_map, settings, progression);
    let ghost fixed = check_map@;
    proof {
        lemma_fixed_fit(graph, slots0, logic);
        lemma_without_all_within(pool0, fixed_items(logic));
        assert forall|x: FillerItem| !fixed_items(logic).contains(x) implies #[trigger] in_pool(progression@, x)
            == in_pool(pool0, x) by {
            lemma_without_all_has(pool0, fixed_items(logic), x);
        }
        lemma_fixed_names_differ(logic);
        lemma_fixed_items_differ(logic);
        if stocked(pool0, logic) {
            lemma_bind_all_spent(graph, slots0, fixed_names(logic), fixed_items(logic), pool0);
            assert(shop_stock(progression@, logic)) by {
                assert forall|x: FillerItem| #[trigger] shop_good(x, logic) implies in_pool(progression@, x) by {
                    if fixed_items(logic).contains(x) {
                        let i = choose|i: int| 0 <= i < fixed_items(logic).len() && fixed_items(logic)[i] == x;
                        assert(!shop_good(fixed_items(logic)[i], logic));
                    }
                }
            }
            if !logic.maiamai_madness {
                assert forall|k: int| 0 <= k < 100 implies in_pool(progression@, #[trigger] maiamai_items()[k]) by {
                    let x = maiamai_items()[k];
                    if fixed_items(logic).contains(x) {
                        let i = choose|i: int| 0 <= i < fixed_items(logic).len() && fixed_items(logic)[i] == x;
                        assert(maiamai_items().contains(fixed_items(logic)[i]));
                    }
                    assert(in_pool(pool0, x));
                }
            }
        }
    }
    let ghost pool1 = progression@;
    match place_in_castle_and_shop(graph, check_map, settings, rng, progression) {
        Ok(()) => {},
        Err(e) => {
            proof {
                lemma_shelved_fit(graph, fixed, check_map@);
                lemma_fitly_twice(graph, slots0, fixed, check_map@);
                lemma_within_twice(progression@, pool1, pool0);
                if stocked(pool0, logic) {
                    lemma_spent_twice(slots0, pool0, fixed, pool1, check_map@, progression@);
                }
            }
            return Err(e);
        },
    }
    let ghost shelved = check_map@;
    let ghost pool_s = progression@;
    proof {
        assert forall|k: int| 0 <= k < fixed_items(logic).len() implies !in_pool(
            pool_s,
            #[trigger] fixed_items(logic)[k],
        ) by {
            lemma_without_all_gone(pool0, fixed_items(logic), k);
            assert(!shop_good(fixed_items(logic)[k], logic));
        }
        assert forall|c: int| 0 <= c < fixed.len() && (#[trigger] fixed[c]) is None implies slots0[c] is None by {
            if fixed[c] != slots0[c] {
                assert(fixed[c] is Some);
            }
        }
        lemma_shelved_fit(graph, fixed, shelved);
        lemma_fitly_twice(graph, slots0, fixed, shelved);
        lemma_within_twice(progression@, pool1, pool0);
        if stocked(pool0, logic) {
            lemma_spent_twice(slots0, pool0, fixed, pool1, shelved, progression@);
            if !logic.maiamai_madness {
                assert forall|k: int| 0 <= k < 100 implies in_pool(progression@, #[trigger] maiamai_items()[k]) by {
                    assert(!shop_good(maiamai_items()[k], logic));
                    assert(in_pool(pool1, maiamai_items()[k]));
                }
            }
        }
        assert(spots(graph, shelved, Spot::Maiamai, false) =~= spots(graph, fixed, Spot::Maiamai, false)) by {
            assert(is_spot(graph, shelved, Spot::Maiamai, false) =~= is_spot(graph, fixed, Spot::Maiamai, false));
        }
    }
    let played = exclude_minigames(graph, check_map, settings, rng, trash);
    let ghost excluded = check_map@;
    proof {
        if only_trash(trash0) {
            lemma_trash_fit(graph, shelved, excluded, minigame_names(logic), trash0);
            lemma_fitly_twice(graph, slots0, shelved, excluded);
        }
        assert(spots(graph, excluded, Spot::Maiamai, false) =~= spots(graph, fixed, Spot::Maiamai, false)) by {
            assert(is_spot(graph, excluded, Spot::Maiamai, false) =~= is_spot(graph, fixed, Spot::Maiamai, false));
        }
    }
    proof {
        if stocked(pool0, logic) {
            lemma_in_play(slots0, pool0, trash0, shelved, progression@, excluded, trash@);
        }
        assert forall|c: int|
            0 <= c < shelved.len() && c < graph.checks@.len() && (Spot::Castle.holds(graph.checks@[c].name@)
                || Spot::Shop.holds(graph.checks@[c].name@)) && shelved[c] is Some implies #[trigger] excluded[c]
            == shelved[c] by {
            if excluded[c] != shelved[c] {
                let j = choose|j: int|
                    0 <= j < minigame_names(logic).len() && is_named(graph, c, #[trigger] minigame_names(logic)[j]);
                lemma_named(graph, c, minigame_names(logic)[j]);
                lemma_minigames_apart(logic, j);
            }
        }
        if played is Ok {
            lemma_shelves_stay(graph, shelved, excluded, logic);
            lemma_shelves_filled_stay(graph, slots0, fixed, shelved, excluded, pool_s, pool_s, logic);
        }
    }
    match played {
        Ok(()) => {},
        Err(e) => {
            return Err(e);
        },
    }
    let ghost pool2 = progression@;
    let ghost trash3 = trash@;
    if !settings.logic.maiamai_madness {
        let hidden = place_maiamai(graph, check_map, progression);
        proof {
            lemma_maiamai_fit(graph, excluded, check_map@);
            if only_trash(trash0) {
                lemma_fitly_twice(graph, slots0, excluded, check_map@);
            }
            lemma_within_twice(progression@, pool2, pool0);
            if stocked(pool0, logic) {
                lemma_in_play_on(slots0, pool0, trash0, excluded, pool2, trash3, check_map@, progression@);
            }
            let last = check_map@;
            assert forall|c: int|
                0 <= c < excluded.len() && c < graph.checks@.len() && (Spot::Castle.holds(
                    graph.checks@[c].name@,
                ) || Spot::Shop.holds(graph.checks@[c].name@)) && excluded[c] is Some implies #[trigger] last[c]
                == excluded[c] by {
                if last[c] != excluded[c] {
                    lemma_maiamai_apart(graph.checks@[c].name@);
                }
            }
            lemma_shelves_stay(graph, excluded, last, logic);
            assert forall|x: FillerItem| #[trigger] shop_good(x, logic) && !in_pool(pool_s, x) implies !in_pool(
                progression@,
                x,
            ) by {
                if maiamai_items().contains(x) {
                    let j = choose|j: int| 0 <= j < maiamai_items().len() && maiamai_items()[j] == x;
                    assert(!shop_good(maiamai_items()[j], logic));
                }
            }
            lemma_shelves_filled_stay(graph, slots0, slots0, excluded, last, pool_s, progression@, logic);
            assert forall|k: int| 0 <= k < fixed_items(logic).len() implies !in_pool(
                progression@,
                #[trigger] fixed_items(logic)[k],
            ) by {
                assert(!maiamai_items().contains(fixed_items(logic)[k]));
                assert(!in_pool(pool_s, fixed_items(logic)[k]));
            }
            if logic.minigames_excluded {
                assert forall|k: int, c: int|
                    0 <= k < minigame_names(logic).len() && 0 <= c < last.len() && #[trigger] is_named(
                        graph,
                        c,
                        minigame_names(logic)[k],
                    ) implies (#[trigger] last[c]) is Some && trash0.contains(last[c]->0) by {
                    assert(excluded[c] is Some && trash0.contains(excluded[c]->0));
                    if last[c] != excluded[c] {
                        lemma_named(graph, c, minigame_names(logic)[k]);
                        lemma_minigames_apart(logic, k);
                    }
                }
            }
        }
        match hidden {
            Ok(()) => {},
            Err(e) => {
                return Err(e);
            },
        }
    }
    proof {
        let last = check_map@;
        lemma_fixed_names_apart(logic);
        assert forall|k: int| 0 <= k < fixed_names(logic).len() implies holds_at(
            graph,
            last,
            #[trigger] fixed_names(logic)[k],
            fixed_items(logic)[k],
        ) by {
            let name = fixed_names(logic)[k];
            assert(holds_at(graph, fixed, name, fixed_items(logic)[k]));
            assert forall|c: int| 0 <= c < last.len() && #[trigger] is_named(graph, c, name) implies last[c]
                == Some(fixed_items(logic)[k]) by {
                lemma_named(graph, c, name);
                assert(fixed[c] == Some(fixed_items(logic)[k]));
                assert(shelved[c] == fixed[c]);
                if excluded[c] != shelved[c] {
                    let j = choose|j: int|
                        0 <= j < minigame_names(logic).len() && is_named(
                            graph,
                            c,
                            #[trigger] minigame_names(logic)[j],
                        );
                    lemma_named(graph, c, minigame_names(logic)[j]);
                }
            }
        }
    }
    Ok(())
}

} // verus!
