//! The two pools of a run: the items that can open something, in the order
//! in which they are placed, and the filler.

use crate::item::{
    FillerItem, FIRST_BIG_KEY, FIRST_COMPASS, FIRST_HEART_PIECE, FIRST_MAIAMAI, FIRST_PRIZE,
    FIRST_SMALL_KEY, FIRST_SWORD, FIRST_TRASH, FIRST_UPGRADE, ITEM_COUNT,
};
use crate::rng::draw_below;
use crate::settings::{Logic, LogicMode, Settings};
use rand::rngs::StdRng;
use vstd::prelude::*;
use vstd::seq_lib::{lemma_multiset_commutative, to_multiset_build, to_multiset_remove};

verus! {

/// A run of the catalogue: `count` tags in catalogue order, from position
/// `first` on.
pub open spec fn run(first: int, count: nat) -> Seq<FillerItem> {
    Seq::new(count, |k: int| FillerItem::at(first + k))
}

/// `count` copies of one tag.
pub open spec fn copies(item: FillerItem, count: nat) -> Seq<FillerItem> {
    Seq::new(count, |k: int| item)
}

/// The hundred maiamai, in catalogue order.
pub open spec fn maiamai_items() -> Seq<FillerItem> {
    run(FIRST_MAIAMAI as int, 100)
}

/// The ten dungeon prizes.
pub open spec fn dungeon_prizes() -> Seq<FillerItem> {
    run(FIRST_PRIZE as int, 10)
}

/// The ten big keys.
pub open spec fn big_keys() -> Seq<FillerItem> {
    run(FIRST_BIG_KEY as int, 10)
}

/// The thirty-eight small keys.
pub open spec fn small_keys() -> Seq<FillerItem> {
    run(FIRST_SMALL_KEY as int, 38)
}

/// The eleven compasses.
pub open spec fn compasses() -> Seq<FillerItem> {
    run(FIRST_COMPASS as int, 11)
}

/// The rest of the progression pool before it is shuffled: tools, bottles,
/// gloves, mails, ore and the rupees that count, then the maiamai, then the
/// swords unless the run is swordless, then the upgraded lamp and net where
/// the settings include them.
pub open spec fn progression_items(logic: Logic) -> Seq<FillerItem> {
    run(0, FIRST_MAIAMAI as nat) + maiamai_items() + if logic.swordless_mode {
        Seq::<FillerItem>::empty()
    } else {
        run(FIRST_SWORD as int, 4)
    } + if logic.super_items {
        run(FIRST_UPGRADE as int, 2)
    } else {
        Seq::<FillerItem>::empty()
    }
}

/// The filler that every run has.
pub open spec fn common_trash() -> Seq<FillerItem> {
    seq![FillerItem::HintGlasses] + copies(FillerItem::RupeeGreen, 2) + copies(FillerItem::RupeeBlue, 8)
        + copies(FillerItem::RupeeRed, 19) + copies(FillerItem::MonsterTail, 4) + copies(
        FillerItem::MonsterHorn,
        3,
    ) + copies(FillerItem::MonsterGuts, 11) + run(FIRST_HEART_PIECE as int, 37)
}

/// The trash pool before it is shuffled: the common filler, then the bee
/// badge, or under hell logic a monster horn in its place, then four empty
/// tags for the swords of a swordless run, then two monster tails where
/// the upgraded lamp and net are left out.
pub open spec fn trash_items(logic: Logic) -> Seq<FillerItem> {
    common_trash() + seq![
        if logic.mode == LogicMode::GlitchHell {
            FillerItem::MonsterHorn
        } else {
            FillerItem::BeeBadge
        },
    ] + if logic.swordless_mode {
        copies(FillerItem::Empty, 4)
    } else {
        Seq::<FillerItem>::empty()
    } + if logic.super_items {
        Seq::<FillerItem>::empty()
    } else {
        copies(FillerItem::MonsterTail, 2)
    }
}

/// Whether one sequence holds the items of the other, each as often.
pub open spec fn permutes(a: Seq<FillerItem>, b: Seq<FillerItem>) -> bool {
    a.to_multiset() == b.to_multiset()
}

/// Whether the pool is made of five stretches that hold, in this order, the
/// items of the five sequences, each stretch in some order of its own.
pub open spec fn ordered(
    pool: Seq<FillerItem>,
    prizes: Seq<FillerItem>,
    big: Seq<FillerItem>,
    small: Seq<FillerItem>,
    compass: Seq<FillerItem>,
    rest: Seq<FillerItem>,
) -> bool {
    let a = prizes.len() as int;
    let b = a + big.len();
    let c = b + small.len();
    let d = c + compass.len();
    &&& pool.len() == d + rest.len()
    &&& permutes(pool.subrange(0, a), prizes)
    &&& permutes(pool.subrange(a, b), big)
    &&& permutes(pool.subrange(b, c), small)
    &&& permutes(pool.subrange(c, d), compass)
    &&& permutes(pool.subrange(d, pool.len() as int), rest)
}

/// Appends a run of the catalogue.
pub(crate) fn push_run(list: &mut Vec<FillerItem>, first: usize, count: usize)
    requires
        first + count <= ITEM_COUNT,
    ensures
        final(list)@ == old(list)@ + run(first as int, count as nat),
{
    let ghost before = list@;
    let mut k: usize = 0;
    while k < count
        invariant
            first + count <= ITEM_COUNT,
            k <= count,
            list@ == before + run(first as int, k as nat),
        decreases count - k,
    {
        let item = FillerItem::from_index(first + k).unwrap();
        list.push(item);
        k += 1;
        assert(list@ =~= before + run(first as int, k as nat));
    }
    assert(list@ =~= before + run(first as int, count as nat));
}

/// Appends copies of one tag.
fn push_copies(list: &mut Vec<FillerItem>, item: FillerItem, count: usize)
    ensures
        final(list)@ == old(list)@ + copies(item, count as nat),
{
    let ghost before = list@;
    let mut k: usize = 0;
    while k < count
        invariant
            k <= count,
            list@ == before + copies(item, k as nat),
        decreases count - k,
    {
        list.push(item);
        k += 1;
        assert(list@ =~= before + copies(item, k as nat));
    }
}

/// The hundred maiamai, in catalogue order.
pub fn maiamai_pool() -> (r: Vec<FillerItem>)
    ensures
        r@ == maiamai_items(),
{
    let mut r: Vec<FillerItem> = Vec::new();
    push_run(&mut r, FIRST_MAIAMAI, 100);
    assert(r@ =~= maiamai_items());
    r
}

/// One step of a shuffle: the item at `index` leaves `items` and goes to
/// the end of `shuffled`.
pub fn shuffle_step(items: &mut Vec<FillerItem>, shuffled: &mut Vec<FillerItem>, index: usize)
    requires
        index < old(items)@.len(),
    ensures
        final(items)@ == old(items)@.remove(index as int),
        final(shuffled)@ == old(shuffled)@.push(old(items)@[index as int]),
{
    let item = items.remove(index);
    shuffled.push(item);
}

/// Shuffles the items: as long as any are left, one of them, drawn at
/// random, is taken out and put at the end of the result.
pub fn shuffle_items(items: Vec<FillerItem>, rng: &mut StdRng) -> (r: Vec<FillerItem>)
    ensures
        permutes(r@, items@),
        r@.len() == items@.len(),
        exists|draws: Seq<int>| #[trigger] drawn_from(draws, items@.len()) && r@ == dealt(items@, draws),
{
    let mut items = items;
    let ghost all = items@;
    let ghost mut draws: Seq<int> = Seq::empty();
    let mut shuffled_items: Vec<FillerItem> = Vec::new();
    proof {
        lemma_multiset_commutative(shuffled_items@, items@);
        assert(shuffled_items@ + items@ =~= all);
    }
    while items.len() > 0
        invariant
            shuffled_items@.to_multiset().add(items@.to_multiset()) == all.to_multiset(),
            shuffled_items@.len() + items@.len() == all.len(),
            draws.len() == shuffled_items@.len(),
            forall|k: int| 0 <= k < draws.len() ==> 0 <= #[trigger] draws[k] < all.len() - k,
            shuffled_items@ == dealt(all, draws),
            items@ == left_over(all, draws),
        decreases items@.len(),
    {
        let index = draw_below(rng, items.len());
        proof {
            to_multiset_remove(items@, index as int);
            to_multiset_build(shuffled_items@, items@[index as int]);
            items@.to_multiset_ensures();
            assert(items@.to_multiset().count(items@[index as int]) > 0);
        }
        let ghost left = items@.to_multiset();
        let ghost done = shuffled_items@.to_multiset();
        let ghost item = items@[index as int];
        let ghost before = draws;
        shuffle_step(&mut items, &mut shuffled_items, index);
        proof {
            draws = before.push(index as int);
            assert(draws.drop_last() =~= before);
        }
        assert(done.insert(item).add(left.remove(item)) =~= done.add(left));
    }
    proof {
        assert(items@ =~= Seq::<FillerItem>::empty());
        assert(shuffled_items@.to_multiset().add(items@.to_multiset()) =~= shuffled_items@.to_multiset());
        assert(drawn_from(draws, all.len()));
    }
    shuffled_items
}

/// Whether the draws can be made one after the other from a list of so
/// many items: there is one draw for each item, and each is a position of
/// what the draws before it have left.
pub open spec fn drawn_from(draws: Seq<int>, count: nat) -> bool {
    &&& draws.len() == count
    &&& forall|k: int| 0 <= k < draws.len() ==> 0 <= #[trigger] draws[k] < count - k
}

/// What is left of the items after the item at each draw, one draw after
/// the other, was taken out.
pub open spec fn left_over(items: Seq<FillerItem>, draws: Seq<int>) -> Seq<FillerItem>
    decreases draws.len(),
{
    if draws.len() == 0 {
        items
    } else {
        left_over(items, draws.drop_last()).remove(draws.last())
    }
}

/// The items that the draws take out, in the order in which they are
/// taken: each draw takes the item at its position in what the draws
/// before it have left.
pub open spec fn dealt(items: Seq<FillerItem>, draws: Seq<int>) -> Seq<FillerItem>
    decreases draws.len(),
{
    if draws.len() == 0 {
        Seq::empty()
    } else {
        dealt(items, draws.drop_last()).push(left_over(items, draws.drop_last())[draws.last()])
    }
}

/// Whether the draws can be made one after the other from a list of so
/// many items: each is a position of what the draws before it have left.
pub open spec fn drawn_within(draws: Seq<int>, count: nat) -> bool {
    &&& draws.len() <= count
    &&& forall|k: int| 0 <= k < draws.len() ==> 0 <= #[trigger] draws[k] < count - k
}

/// What the draws take out of a list and what they leave of it are the
/// list: each item as often as it was there.
pub proof fn lemma_dealt_partition(items: Seq<FillerItem>, draws: Seq<int>)
    requires
        drawn_within(draws, items.len()),
    ensures
        left_over(items, draws).len() + draws.len() == items.len(),
        dealt(items, draws).len() == draws.len(),
        items.to_multiset() == left_over(items, draws).to_multiset().add(dealt(items, draws).to_multiset()),
    decreases draws.len(),
{
    broadcast use vstd::multiset::group_multiset_axioms;

    if draws.len() == 0 {
        crate::check_map::lemma_no_items(dealt(items, draws));
        assert(items.to_multiset() =~= items.to_multiset().add(dealt(items, draws).to_multiset()));
    } else {
        let fewer = draws.drop_last();
        assert(drawn_within(fewer, items.len())) by {
            assert forall|k: int| 0 <= k < fewer.len() implies 0 <= #[trigger] fewer[k] < items.len() - k by {
                assert(fewer[k] == draws[k]);
            }
        }
        lemma_dealt_partition(items, fewer);
        let rest = left_over(items, fewer);
        let at = draws.last();
        assert(draws[draws.len() - 1] == at);
        to_multiset_remove(rest, at);
        to_multiset_build(dealt(items, fewer), rest[at]);
        assert(rest.contains(rest[at]));
        vstd::seq_lib::to_multiset_contains(rest, rest[at]);
    }
}

/// Orders the progression items for placement: each kind is shuffled among
/// its own, and the kinds follow one another: dungeon prizes, big keys,
/// small keys, compasses, everything else. The prizes come first so that
/// they find the prize checks empty, the keys and compasses next so that
/// their dungeons still have room.
pub fn order_progression_pools(
    _settings: &Settings,
    rng: &mut StdRng,
    dungeon_prizes: Vec<FillerItem>,
    big_keys: Vec<FillerItem>,
    small_keys: Vec<FillerItem>,
    compasses: Vec<FillerItem>,
    progression: Vec<FillerItem>,
) -> (r: Vec<FillerItem>)
    ensures
        ordered(r@, dungeon_prizes@, big_keys@, small_keys@, compasses@, progression@),
{
    let mut progression_pool = shuffle_items(dungeon_prizes, rng);
    let ghost s1 = progression_pool@;
    let mut part = shuffle_items(big_keys, rng);
    let ghost s2 = part@;
    progression_pool.append(&mut part);
    let mut part = shuffle_items(small_keys, rng);
    let ghost s3 = part@;
    progression_pool.append(&mut part);
    let mut part = shuffle_items(compasses, rng);
    let ghost s4 = part@;
    progression_pool.append(&mut part);
    let mut part = shuffle_items(progression, rng);
    let ghost s5 = part@;
    progression_pool.append(&mut part);
    proof {
        let pool = progression_pool@;
        let a = s1.len() as int;
        let b = a + s2.len();
        let c = b + s3.len();
        let d = c + s4.len();
        assert(pool =~= s1 + s2 + s3 + s4 + s5);
        assert(pool.subrange(0, a) =~= s1);
        assert(pool.subrange(a, b) =~= s2);
        assert(pool.subrange(b, c) =~= s3);
        assert(pool.subrange(c, d) =~= s4);
        assert(pool.subrange(d, pool.len() as int) =~= s5);
    }
    progression_pool
}

/// The two pools of a run: the progression pool in the order of placement,
/// and the shuffled trash pool.
pub fn get_item_pools(settings: &Settings, rng: &mut StdRng) -> (r: (Vec<FillerItem>, Vec<FillerItem>))
    ensures
        ordered(
            r.0@,
            dungeon_prizes(),
            big_keys(),
            small_keys(),
            compasses(),
            progression_items(settings.logic),
        ),
        permutes(r.1@, trash_items(settings.logic)),
        r.1@.len() == trash_items(settings.logic).len(),
{
    let mut dungeon_prizes: Vec<FillerItem> = Vec::new();
    push_run(&mut dungeon_prizes, FIRST_PRIZE, 10);
    let mut big_keys: Vec<FillerItem> = Vec::new();
    push_run(&mut big_keys, FIRST_BIG_KEY, 10);
    let mut small_keys: Vec<FillerItem> = Vec::new();
    push_run(&mut small_keys, FIRST_SMALL_KEY, 38);
    let mut compasses: Vec<FillerItem> = Vec::new();
    push_run(&mut compasses, FIRST_COMPASS, 11);

    let mut progression_items: Vec<FillerItem> = Vec::new();
    push_run(&mut progression_items, 0, FIRST_MAIAMAI);
    let mut maiamai = maiamai_pool();
    progression_items.append(&mut maiamai);

    let mut trash_pool: Vec<FillerItem> = Vec::new();
    trash_pool.push(FillerItem::HintGlasses);
    push_copies(&mut trash_pool, FillerItem::RupeeGreen, 2);
    push_copies(&mut trash_pool, FillerItem::RupeeBlue, 8);
    push_copies(&mut trash_pool, FillerItem::RupeeRed, 19);
    push_copies(&mut trash_pool, FillerItem::MonsterTail, 4);
    push_copies(&mut trash_pool, FillerItem::MonsterHorn, 3);
    push_copies(&mut trash_pool, FillerItem::MonsterGuts, 11);
    push_run(&mut trash_pool, FIRST_HEART_PIECE, 37);
    assert(trash_pool@ =~= common_trash());

    // Hell logic keeps the bee badge out of the game.
    trash_pool.push(
        match settings.logic.mode {
            LogicMode::GlitchHell => FillerItem::MonsterHorn,
            _ => FillerItem::BeeBadge,
        },
    );

    if settings.logic.swordless_mode {
        push_copies(&mut trash_pool, FillerItem::Empty, 4);
    } else {
        push_run(&mut progression_items, FIRST_SWORD, 4);
    }

    if settings.logic.super_items {
        push_run(&mut progression_items, FIRST_UPGRADE, 2);
    } else {
        push_copies(&mut trash_pool, FillerItem::MonsterTail, 2);
    }
    assert(progression_items@ =~= crate::pools::progression_items(settings.logic));
    assert(trash_pool@ =~= trash_items(settings.logic));
    assert(dungeon_prizes@ =~= crate::pools::dungeon_prizes());
    assert(big_keys@ =~= crate::pools::big_keys());
    assert(small_keys@ =~= crate::pools::small_keys());
    assert(compasses@ =~= crate::pools::compasses());

    let progression = order_progression_pools(
        settings,
        rng,
        dungeon_prizes,
        big_keys,
        small_keys,
        compasses,
        progression_items,
    );
    let trash = shuffle_items(trash_pool, rng);
    (progression, trash)
}

/// The whole progression pool before it is shuffled, kind after kind.
pub open spec fn progression_pool(logic: Logic) -> Seq<FillerItem> {
    dungeon_prizes() + big_keys() + small_keys() + compasses() + progression_items(logic)
}

/// A pool made of five stretches that hold the items of five sequences
/// holds the items of the five sequences put together.
pub proof fn lemma_ordered_permutes(
    pool: Seq<FillerItem>,
    prizes: Seq<FillerItem>,
    big: Seq<FillerItem>,
    small: Seq<FillerItem>,
    compass: Seq<FillerItem>,
    rest: Seq<FillerItem>,
)
    requires
        ordered(pool, prizes, big, small, compass, rest),
    ensures
        permutes(pool, prizes + big + small + compass + rest),
{
    let a = prizes.len() as int;
    let b = a + big.len();
    let c = b + small.len();
    let d = c + compass.len();
    let first = pool.subrange(0, a);
    let second = pool.subrange(a, b);
    let third = pool.subrange(b, c);
    let fourth = pool.subrange(c, d);
    let fifth = pool.subrange(d, pool.len() as int);
    assert(pool =~= first + second + third + fourth + fifth);
    lemma_multiset_commutative(first, second);
    lemma_multiset_commutative(first + second, third);
    lemma_multiset_commutative(first + second + third, fourth);
    lemma_multiset_commutative(first + second + third + fourth, fifth);
    lemma_multiset_commutative(prizes, big);
    lemma_multiset_commutative(prizes + big, small);
    lemma_multiset_commutative(prizes + big + small, compass);
    lemma_multiset_commutative(prizes + big + small + compass, rest);
}

/// Two pools that hold the same items, each as often, hold the same set of
/// items.
pub proof fn lemma_permutes_same_set(a: Seq<FillerItem>, b: Seq<FillerItem>)
    requires
        permutes(a, b),
    ensures
        a.to_set() == b.to_set(),
        forall|i: int| 0 <= i < a.len() ==> b.contains(#[trigger] a[i]),
{
    assert forall|x: FillerItem| a.contains(x) == b.contains(x) by {
        vstd::seq_lib::to_multiset_contains(a, x);
        vstd::seq_lib::to_multiset_contains(b, x);
    }
    assert(a.to_set() =~= b.to_set());
    assert forall|i: int| 0 <= i < a.len() implies b.contains(#[trigger] a[i]) by {
        assert(a.contains(a[i]));
    }
}

/// The trash pool holds nothing but filler.
pub proof fn lemma_trash_items(logic: Logic)
    ensures
        forall|i: int| 0 <= i < trash_items(logic).len() ==> (#[trigger] trash_items(logic)[i]).trash(),
{
    let pool = trash_items(logic);
    assert forall|i: int| 0 <= i < pool.len() implies (#[trigger] pool[i]).trash() by {
        if 48 <= i < 85 {
            FillerItem::lemma_position_at(FIRST_HEART_PIECE + (i - 48));
            assert(pool[i] == FillerItem::at(FIRST_HEART_PIECE + (i - 48)));
        }
    }
}

/// The progression pool holds every tag of the catalogue from the tools
/// to the maiamai, the ten dungeon prizes, and the swords unless the run is
/// swordless.
pub proof fn lemma_pool_has(logic: Logic, item: FillerItem)
    requires
        item.position() < FIRST_SWORD || item.dungeon_prize() || (!logic.swordless_mode && item.position()
            < FIRST_UPGRADE),
    ensures
        progression_pool(logic).to_multiset().count(item) > 0,
{
    let pool = progression_pool(logic);
    let at = item.position();
    item.lemma_at_position();
    // the prizes, the keys and the compasses come first
    let i = if item.dungeon_prize() {
        at - FIRST_PRIZE
    } else {
        FIRST_TRASH - FIRST_PRIZE + at
    };
    assert(pool[i] == item);
    assert(pool.contains(item));
    vstd::seq_lib::to_multiset_contains(pool, item);
}

} // verus!
