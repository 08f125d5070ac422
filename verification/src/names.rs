//! The names of the checks that the placement knows by name, and what
//! tells them apart.

use crate::item::{FillerItem, FIRST_PRIZE};
use crate::spots::Spot;
use crate::settings::Logic;
use crate::text::{begins_with, occurs_at, occurs_in};
use vstd::prelude::*;

verus! {

/// The checks whose items never vary.
pub open spec fn static_names() -> Seq<Seq<char>> {
    seq![
        "Shore"@,
        "Cucco Dungeon"@,
        "[TR] (1F) Under Center"@,
        "[TR] (B1) Under Center"@,
        "[PD] (2F) South Hidden Room"@,
    ]
}

/// The items of the checks whose items never vary, in the order of their
/// names.
pub open spec fn static_items() -> Seq<FillerItem> {
    seq![
        FillerItem::LetterInABottle,
        FillerItem::RupeeSilver39,
        FillerItem::RupeeSilver40,
        FillerItem::RupeeGold09,
        FillerItem::RupeeGold10,
    ]
}

/// The ten checks that hold the dungeon prizes, in the catalogue order of
/// the prizes that they hold in the game as it was made.
pub open spec fn prize_names() -> Seq<Seq<char>> {
    seq![
        "Eastern Palace Prize"@,
        "House of Gales Prize"@,
        "Tower of Hera Prize"@,
        "Dark Palace Prize"@,
        "Swamp Palace Prize"@,
        "Skull Woods Prize"@,
        "Thieves' Hideout Prize"@,
        "Turtle Rock Prize"@,
        "Desert Palace Prize"@,
        "Ice Ruins Prize"@,
    ]
}

/// The names of the checks that are bound before anything is drawn: the
/// checks whose items never vary and, unless the dungeon prizes are
/// randomized, the ten prize checks.
pub open spec fn fixed_names(logic: Logic) -> Seq<Seq<char>> {
    if logic.randomize_dungeon_prizes {
        static_names()
    } else {
        static_names() + prize_names()
    }
}

/// The items bound before anything is drawn, in the order of their names.
pub open spec fn fixed_items(logic: Logic) -> Seq<FillerItem> {
    if logic.randomize_dungeon_prizes {
        static_items()
    } else {
        static_items() + Seq::new(10, |k: int| FillerItem::at(FIRST_PRIZE + k))
    }
}

/// The minigames, and with them, where the maiamai are shuffled, the two
/// maiamai that can only be had by playing one.
pub open spec fn minigame_names(logic: Logic) -> Seq<Seq<char>> {
    let games = seq![
        "Cucco Ranch"@,
        "Hyrule Hotfoot"@,
        "Rupee Rush (Hyrule)"@,
        "Rupee Rush (Lorule)"@,
        "Octoball Derby"@,
        "Treacherous Tower (Intermediate)"@,
    ];
    if logic.maiamai_madness {
        games + seq!["[Mai] Hyrule Rupee Rush Wall"@, "[Mai] Lorule Rupee Rush Wall"@]
    } else {
        games
    }
}

/// What tells most of the names apart: the length and the first character.
pub open spec fn mark(name: Seq<char>) -> (nat, char) {
    (name.len(), name[0])
}

/// The lengths and the first characters of the names that are bound before
/// anything is drawn.
proof fn lemma_fixed_marks()
    ensures
        mark(static_names()[0]) == (5nat, 'S'),
        mark(static_names()[1]) == (13nat, 'C'),
        mark(static_names()[2]) == (22nat, '['),
        mark(static_names()[3]) == (22nat, '['),
        mark(static_names()[4]) == (27nat, '['),
        static_names()[2][6] == '1',
        static_names()[3][6] == 'B',
        static_names()[2][1] == 'T',
        static_names()[3][1] == 'T',
        static_names()[4][1] == 'P',
        mark(prize_names()[0]) == (20nat, 'E'),
        mark(prize_names()[1]) == (20nat, 'H'),
        mark(prize_names()[2]) == (19nat, 'T'),
        mark(prize_names()[3]) == (17nat, 'D'),
        mark(prize_names()[4]) == (18nat, 'S'),
        mark(prize_names()[5]) == (17nat, 'S'),
        mark(prize_names()[6]) == (22nat, 'T'),
        mark(prize_names()[7]) == (17nat, 'T'),
        mark(prize_names()[8]) == (19nat, 'D'),
        mark(prize_names()[9]) == (15nat, 'I'),
{
    reveal_strlit("Shore");
    reveal_strlit("Cucco Dungeon");
    reveal_strlit("[TR] (1F) Under Center");
    reveal_strlit("[TR] (B1) Under Center");
    reveal_strlit("[PD] (2F) South Hidden Room");
    reveal_strlit("Eastern Palace Prize");
    reveal_strlit("House of Gales Prize");
    reveal_strlit("Tower of Hera Prize");
    reveal_strlit("Dark Palace Prize");
    reveal_strlit("Swamp Palace Prize");
    reveal_strlit("Skull Woods Prize");
    reveal_strlit("Thieves' Hideout Prize");
    reveal_strlit("Turtle Rock Prize");
    reveal_strlit("Desert Palace Prize");
    reveal_strlit("Ice Ruins Prize");
}

/// The lengths and the first characters of the names of the minigames.
proof fn lemma_minigame_marks(logic: Logic)
    ensures
        minigame_names(logic).len() == if logic.maiamai_madness {
            8nat
        } else {
            6nat
        },
        forall|k: int|
            0 <= k < minigame_names(logic).len() ==> {
                let m = mark(#[trigger] minigame_names(logic)[k]);
                m == (11nat, 'C') || m == (14nat, 'H') || m == (19nat, 'R') || m == (14nat, 'O') || m == (
                    32nat,
                    'T',
                ) || m == (28nat, '[')
            },
{
    reveal_strlit("Cucco Ranch");
    reveal_strlit("Hyrule Hotfoot");
    reveal_strlit("Rupee Rush (Hyrule)");
    reveal_strlit("Rupee Rush (Lorule)");
    reveal_strlit("Octoball Derby");
    reveal_strlit("Treacherous Tower (Intermediate)");
    reveal_strlit("[Mai] Hyrule Rupee Rush Wall");
    reveal_strlit("[Mai] Lorule Rupee Rush Wall");
}

/// No two of the names that are bound before anything is drawn are the
/// same.
pub proof fn lemma_fixed_names_differ(logic: Logic)
    ensures
        fixed_names(logic).len() == fixed_items(logic).len(),
        fixed_names(logic).len() == if logic.randomize_dungeon_prizes {
            5nat
        } else {
            15nat
        },
        forall|i: int, j: int|
            0 <= i < j < fixed_names(logic).len() ==> #[trigger] fixed_names(logic)[i] != #[trigger] fixed_names(
                logic,
            )[j],
{
    lemma_fixed_marks();
    let names = fixed_names(logic);
    assert forall|i: int, j: int| 0 <= i < j < names.len() implies #[trigger] names[i] != #[trigger] names[j] by {
        if i == 2 && j == 3 {
            assert(names[i][6] != names[j][6]);
        } else {
            assert(mark(names[i]) != mark(names[j]));
        }
    }
}

/// None of the names that are bound before anything is drawn is the name
/// of a minigame or of a check where a maiamai hides.
pub proof fn lemma_fixed_names_apart(logic: Logic)
    ensures
        forall|i: int, k: int|
            0 <= i < fixed_names(logic).len() && 0 <= k < minigame_names(logic).len()
                ==> #[trigger] fixed_names(logic)[i] != #[trigger] minigame_names(logic)[k],
        forall|i: int| 0 <= i < fixed_names(logic).len() ==> !Spot::Maiamai.holds(#[trigger] fixed_names(logic)[i]),
{
    lemma_fixed_marks();
    lemma_minigame_marks(logic);
    reveal_strlit("[Mai]");
    let names = fixed_names(logic);
    assert forall|i: int, k: int| 0 <= i < names.len() && 0 <= k < minigame_names(logic).len() implies #[trigger] names[i]
        != #[trigger] minigame_names(logic)[k] by {
        assert(mark(names[i]) != mark(minigame_names(logic)[k]));
    }
    assert forall|i: int| 0 <= i < names.len() implies !Spot::Maiamai.holds(#[trigger] names[i]) by {
        if begins_with(names[i], "[Mai]"@) {
            assert(names[i].subrange(0, 5)[0] == '[');
            assert(names[i].subrange(0, 5)[1] == 'M');
        }
    }
}

/// No minigame is a check inside the castle or in the shop, and where the
/// maiamai are not shuffled none is a check where a maiamai hides.
pub proof fn lemma_minigames_apart(logic: Logic, k: int)
    requires
        0 <= k < minigame_names(logic).len(),
    ensures
        !Spot::Castle.holds(minigame_names(logic)[k]),
        !Spot::Shop.holds(minigame_names(logic)[k]),
        !logic.maiamai_madness ==> !Spot::Maiamai.holds(minigame_names(logic)[k]),
{
    reveal_strlit("Cucco Ranch");
    reveal_strlit("Hyrule Hotfoot");
    reveal_strlit("Rupee Rush (Hyrule)");
    reveal_strlit("Rupee Rush (Lorule)");
    reveal_strlit("Octoball Derby");
    reveal_strlit("Treacherous Tower (Intermediate)");
    reveal_strlit("[Mai] Hyrule Rupee Rush Wall");
    reveal_strlit("[Mai] Lorule Rupee Rush Wall");
    reveal_strlit("Zelda");
    reveal_strlit("[LC]");
    reveal_strlit("Ravio");
    reveal_strlit("[Mai]");
    let name = minigame_names(logic)[k];
    assert(name.len() > 5);
    if k == 0 {
        assert(name[0] == 'C');
    } else if k == 1 {
        assert(name[0] == 'H');
    } else if k == 2 {
        assert(name[0] == 'R' && name[1] == 'u');
    } else if k == 3 {
        assert(name[0] == 'R' && name[1] == 'u');
    } else if k == 4 {
        assert(name[0] == 'O');
    } else if k == 5 {
        assert(name[0] == 'T');
    } else {
        assert(logic.maiamai_madness);
        assert(name[0] == '[' && name[1] == 'M');
    }
    if begins_with(name, "[LC]"@) {
        assert(name.subrange(0, 4)[0] == '[');
        assert(name.subrange(0, 4)[1] == 'L');
    }
    if begins_with(name, "Ravio"@) {
        assert(name.subrange(0, 5)[0] == 'R');
        assert(name.subrange(0, 5)[1] == 'a');
    }
    if begins_with(name, "[Mai]"@) {
        assert(name.subrange(0, 5)[0] == '[');
    }
}

/// No check where a maiamai hides is inside the castle or in the shop.
pub proof fn lemma_maiamai_apart(name: Seq<char>)
    requires
        Spot::Maiamai.holds(name),
    ensures
        !Spot::Castle.holds(name),
        !Spot::Shop.holds(name),
{
    reveal_strlit("Zelda");
    reveal_strlit("[LC]");
    reveal_strlit("Ravio");
    reveal_strlit("[Mai]");
    assert(name.subrange(0, 5)[0] == '[');
    assert(name.subrange(0, 5)[1] == 'M');
    if begins_with(name, "[LC]"@) {
        assert(name.subrange(0, 4)[1] == 'L');
    }
    if begins_with(name, "Ravio"@) {
        assert(name.subrange(0, 5)[0] == 'R');
    }
}

/// Each of the ten prize checks has "Prize" in its name.
pub proof fn lemma_prize_names(k: int)
    requires
        0 <= k < 10,
    ensures
        occurs_in(prize_names()[k], "Prize"@),
{
    reveal_strlit("Prize");
    reveal_strlit("Eastern Palace Prize");
    reveal_strlit("House of Gales Prize");
    reveal_strlit("Tower of Hera Prize");
    reveal_strlit("Dark Palace Prize");
    reveal_strlit("Swamp Palace Prize");
    reveal_strlit("Skull Woods Prize");
    reveal_strlit("Thieves' Hideout Prize");
    reveal_strlit("Turtle Rock Prize");
    reveal_strlit("Desert Palace Prize");
    reveal_strlit("Ice Ruins Prize");
    let name = prize_names()[k];
    let at = name.len() - 5;
    assert(name.subrange(at, at + 5) =~= "Prize"@);
    assert(occurs_at(name, "Prize"@, at));
}

/// No check is both inside the castle and in the shop.
pub proof fn lemma_castle_not_shop(name: Seq<char>)
    ensures
        !(Spot::Castle.holds(name) && Spot::Shop.holds(name)),
{
    reveal_strlit("Zelda");
    reveal_strlit("[LC]");
    reveal_strlit("Ravio");
    if Spot::Castle.holds(name) && Spot::Shop.holds(name) {
        assert(name.subrange(0, 5)[0] == 'R');
        if name != "Zelda"@ {
            assert(name.subrange(0, 4)[0] == '[');
        }
    }
}

} // verus!
