use rand::rngs::StdRng;
use rand::SeedableRng;
use randomizer::check_map::CheckMap;
use randomizer::error::FillError;
use randomizer::filler::{
    assumed_fill, fill_check_map, fill_empty_at, fill_stuff, fill_trash, map_to_result, place_or_skip,
    prefill_check_map, verify_all_locations_accessible,
};
use randomizer::game::Item;
use randomizer::guard::Guard;
use randomizer::item::{is_dungeon_item, is_dungeon_prize, is_trash, dungeon_of, FillerItem};
use randomizer::pools::get_item_pools;
use randomizer::regions::{LocationInfo, World};
use randomizer::search::assumed_search;
use randomizer::settings::{open_default, Exclusion, LogicMode, Settings};
use randomizer::world::WorldGraph;

const PRIZES: [(&str, FillerItem); 10] = [
    ("Eastern Palace Prize", FillerItem::PendantOfCourage),
    ("House of Gales Prize", FillerItem::PendantOfWisdom),
    ("Tower of Hera Prize", FillerItem::PendantOfPower),
    ("Dark Palace Prize", FillerItem::SageGulley),
    ("Swamp Palace Prize", FillerItem::SageOren),
    ("Skull Woods Prize", FillerItem::SageSeres),
    ("Thieves' Hideout Prize", FillerItem::SageOsfala),
    ("Turtle Rock Prize", FillerItem::SageImpa),
    ("Desert Palace Prize", FillerItem::SageIrene),
    ("Ice Ruins Prize", FillerItem::SageRosso),
];

fn place(graph: &mut WorldGraph, location: usize, world: World, region: &str, name: &str) {
    let info = LocationInfo::new(world, region, name);
    assert!(graph.add_check(location, name, None, Guard::Open, Some(info)).is_some());
}

fn dungeon(
    graph: &mut WorldGraph,
    from: usize,
    region: &str,
    tag: &str,
    rooms: usize,
    prize: &str,
    guard: Guard,
) -> usize {
    let location = graph.add_location(region);
    assert!(graph.add_path(from, location, guard));
    assert!(graph.add_path(location, from, Guard::Open));
    for room in 0..rooms {
        place(graph, location, World::Dungeons, region, &format!("{} Room {}", tag, room + 1));
    }
    if !prize.is_empty() {
        place(graph, location, World::Dungeons, region, prize);
    }
    location
}

/// A world with a check for every item of the two pools, and with the
/// checks that the placement knows by name.
fn build_world() -> WorldGraph {
    let mut graph = WorldGraph::new("Ravio's Shop");
    let shop = 0;
    for slot in 1..=6 {
        place(&mut graph, shop, World::Hyrule, "Ravio's Shop", &format!("Ravio ({})", slot));
    }
    let field = graph.add_location("Hyrule Field");
    assert!(graph.add_path(shop, field, Guard::Open));
    assert!(graph.add_path(field, shop, Guard::Open));
    for name in ["Shore", "Cucco Dungeon", "Cucco Ranch", "Hyrule Hotfoot", "Rupee Rush (Hyrule)", "Zelda"] {
        place(&mut graph, field, World::Hyrule, "Hyrule Field", name);
    }
    place(&mut graph, field, World::Hyrule, "Hyrule Field", "[Mai] Hyrule Rupee Rush Wall");
    for hide in 1..60 {
        place(&mut graph, field, World::Hyrule, "Hyrule Field", &format!("[Mai] Hyrule {}", hide));
    }
    let castle_gate = Guard::Any(vec![
        Guard::Has(FillerItem::Sword01),
        Guard::Has(FillerItem::Sword02),
        Guard::Has(FillerItem::Sword03),
        Guard::Has(FillerItem::Sword04),
        Guard::Setting(randomizer::guard::Switch::SwordlessMode, true),
    ]);
    let sanctuary = dungeon(&mut graph, field, "Sanctuary", "[HS]", 2, "", Guard::Open);
    assert!(graph
        .add_check(sanctuary, "Sanctuary Doors", Some(FillerItem::OpenSanctuaryDoors), castle_gate, None)
        .is_some());
    dungeon(&mut graph, field, "Eastern Palace", "[EP]", 6, PRIZES[0].0, Guard::Has(FillerItem::Bow01));
    dungeon(&mut graph, field, "House of Gales", "[HG]", 8, PRIZES[1].0, Guard::Has(FillerItem::Flippers));
    dungeon(&mut graph, field, "Tower of Hera", "[TH]", 6, PRIZES[2].0, Guard::Has(FillerItem::Hammer01));
    let lorule = graph.add_location("Lorule Field");
    let merge = Guard::All(vec![
        Guard::Any(vec![
            Guard::Has(FillerItem::RaviosBracelet01),
            Guard::Has(FillerItem::RaviosBracelet02),
        ]),
        Guard::Has(FillerItem::OpenSanctuaryDoors),
    ]);
    assert!(graph.add_path(field, lorule, merge));
    assert!(graph.add_path(lorule, field, Guard::Open));
    for name in ["Rupee Rush (Lorule)", "Octoball Derby", "Treacherous Tower (Intermediate)"] {
        place(&mut graph, lorule, World::Lorule, "Lorule Field", name);
    }
    place(&mut graph, lorule, World::Lorule, "Lorule Field", "[Mai] Lorule Rupee Rush Wall");
    for hide in 1..40 {
        place(&mut graph, lorule, World::Lorule, "Lorule Field", &format!("[Mai] Lorule {}", hide));
    }
    let dark = dungeon(&mut graph, lorule, "Dark Palace", "[PD]", 7, PRIZES[3].0, Guard::Has(FillerItem::Bombs01));
    place(&mut graph, dark, World::Dungeons, "Dark Palace", "[PD] (2F) South Hidden Room");
    dungeon(&mut graph, lorule, "Swamp Palace", "[SP]", 8, PRIZES[4].0, Guard::Has(FillerItem::Hookshot01));
    dungeon(&mut graph, lorule, "Skull Woods", "[SW]", 7, PRIZES[5].0, Guard::Open);
    dungeon(&mut graph, lorule, "Thieves' Hideout", "[T'H]", 5, PRIZES[6].0, Guard::Open);
    let turtle = dungeon(&mut graph, lorule, "Turtle Rock", "[TR]", 7, PRIZES[7].0, Guard::Has(FillerItem::IceRod01));
    place(&mut graph, turtle, World::Dungeons, "Turtle Rock", "[TR] (1F) Under Center");
    place(&mut graph, turtle, World::Dungeons, "Turtle Rock", "[TR] (B1) Under Center");
    dungeon(&mut graph, lorule, "Desert Palace", "[DP]", 9, PRIZES[8].0, Guard::Has(FillerItem::SandRod01));
    dungeon(&mut graph, lorule, "Ice Ruins", "[IR]", 7, PRIZES[9].0, Guard::Has(FillerItem::FireRod01));
    dungeon(&mut graph, lorule, "Lorule Sanctuary", "[LS]", 2, "", Guard::Open);
    let castle = dungeon(&mut graph, lorule, "Lorule Castle", "[LC]", 8, "", Guard::Portraits);
    assert!(graph
        .add_check(castle, "Throne Room", Some(FillerItem::Triforce), Guard::Has(FillerItem::BowOfLight), None)
        .is_some());
    let mut spare = 1;
    while graph.check_count() < 365 + 2 {
        place(&mut graph, field, World::Hyrule, "Hyrule Field", &format!("Field {}", spare));
        spare += 1;
    }
    graph
}

fn name_of(graph: &WorldGraph, check: usize) -> &str {
    graph.checks[check].get_name()
}

fn held_at(graph: &WorldGraph, check_map: &CheckMap, name: &str) -> FillerItem {
    check_map.get(graph.find_check(name).unwrap()).unwrap()
}

fn sorted(items: &[FillerItem]) -> Vec<usize> {
    let mut at: Vec<usize> = items.iter().map(|item| item.index()).collect();
    at.sort();
    at
}

fn bound(check_map: &CheckMap) -> Vec<FillerItem> {
    (0..check_map.len()).map(|check| check_map.get(check).unwrap()).collect()
}

fn assert_sound(graph: &WorldGraph, settings: &Settings, check_map: &CheckMap) {
    // every check holds an item
    assert_eq!(check_map.len(), graph.check_count());
    for check in 0..check_map.len() {
        assert!(check_map.get(check).is_some(), "{} is empty", name_of(graph, check));
    }
    // from nothing in hand every check can be taken
    let reachable = assumed_search(graph, &vec![], check_map, settings);
    assert_eq!(reachable.len(), graph.check_count());
    // prizes on prize checks, keys and compasses in their dungeons
    for check in 0..check_map.len() {
        let item = check_map.get(check).unwrap();
        if is_dungeon_prize(item) {
            assert!(name_of(graph, check).contains("Prize"));
        }
        if is_dungeon_item(item) {
            assert!(name_of(graph, check).starts_with(dungeon_of(item).unwrap().prefix()));
        }
    }
    // what is bound is what the pools and the world hold
    let mut rng = StdRng::seed_from_u64(99);
    let (progression, trash) = get_item_pools(settings, &mut rng);
    let mut all = progression;
    all.extend(trash);
    all.push(FillerItem::OpenSanctuaryDoors);
    all.push(FillerItem::Triforce);
    assert_eq!(sorted(&bound(check_map)), sorted(&all));
}

#[test]
fn world_is_well_sized() {
    let graph = build_world();
    assert_eq!(graph.check_count(), 367);
    let quest = (0..graph.check_count()).filter(|c| graph.checks[*c].get_quest().is_some()).count();
    assert_eq!(quest, 2);
    assert_eq!(graph.find_check("Shore"), Some(6));
    assert_eq!(graph.find_check("Atlantis"), None);
    assert_eq!(graph.location_count(), 16);
}

#[test]
fn default_settings_seed_0() {
    let graph = build_world();
    let settings = open_default();
    let placement = fill_check_map(&graph, &settings, 0).unwrap();
    assert!(placement.skipped.is_empty());
    assert!(placement.leftover.is_empty());
    assert_sound(&graph, &settings, &placement.check_map);
    let result = fill_stuff(&graph, &settings, 0).unwrap();
    assert_eq!(result.len(), 365);
    let expected = map_to_result(&graph, &placement.check_map).unwrap();
    assert_eq!(result, expected);
    assert_eq!(result[0].0, LocationInfo::new(World::Hyrule, "Ravio's Shop", "Ravio (1)"));
}

#[test]
fn bow_of_light_in_castle_lies_in_the_castle() {
    let graph = build_world();
    let mut settings = open_default();
    settings.logic.bow_of_light_in_castle = true;
    for seed in 0..5 {
        let placement = fill_check_map(&graph, &settings, seed).unwrap();
        assert_sound(&graph, &settings, &placement.check_map);
        let at = (0..graph.check_count())
            .find(|c| placement.check_map.get(*c) == Some(FillerItem::BowOfLight))
            .unwrap();
        let name = name_of(&graph, at);
        assert!(name == "Zelda" || name.starts_with("[LC]"), "bow of light at {}", name);
    }
}

#[test]
fn swordless_mode_seed_1() {
    let graph = build_world();
    let mut settings = open_default();
    settings.logic.swordless_mode = true;
    let placement = fill_check_map(&graph, &settings, 1).unwrap();
    assert_sound(&graph, &settings, &placement.check_map);
    let items = bound(&placement.check_map);
    for sword in [FillerItem::Sword01, FillerItem::Sword02, FillerItem::Sword03, FillerItem::Sword04] {
        assert!(!items.contains(&sword));
    }
    assert_eq!(items.iter().filter(|item| **item == FillerItem::Empty).count(), 4);
    let result = fill_stuff(&graph, &settings, 1).unwrap();
    assert_eq!(result.iter().filter(|entry| entry.1 == Item::ItemSwordLv1).count(), 0);
    assert_eq!(result.iter().filter(|entry| entry.1 == Item::Empty).count(), 4);
    let with_swords = fill_stuff(&graph, &open_default(), 1).unwrap();
    assert_eq!(with_swords.iter().filter(|entry| entry.1 == Item::ItemSwordLv1).count(), 4);
    assert_eq!(with_swords.iter().filter(|entry| entry.1 == Item::Empty).count(), 0);
}

#[test]
fn maiamai_stay_where_they_hide_seed_42() {
    let graph = build_world();
    let mut settings = open_default();
    settings.logic.maiamai_madness = false;
    let placement = fill_check_map(&graph, &settings, 42).unwrap();
    assert_sound(&graph, &settings, &placement.check_map);
    let mut next = FillerItem::Maiamai001.index();
    for check in 0..graph.check_count() {
        let item = placement.check_map.get(check).unwrap();
        if name_of(&graph, check).starts_with("[Mai]") {
            assert_eq!(item.index(), next);
            next += 1;
        } else {
            assert!(item.index() < FillerItem::Maiamai001.index() || item.index() > FillerItem::Maiamai100.index());
        }
    }
    assert_eq!(next, FillerItem::Maiamai100.index() + 1);
}

#[test]
fn maiamai_madness_shuffles_the_maiamai() {
    let graph = build_world();
    let mut settings = open_default();
    settings.logic.maiamai_madness = true;
    let placement = fill_check_map(&graph, &settings, 42).unwrap();
    assert_sound(&graph, &settings, &placement.check_map);
    let outside = (0..graph.check_count())
        .filter(|c| !name_of(&graph, *c).starts_with("[Mai]"))
        .filter(|c| randomizer::game::convert(placement.check_map.get(*c).unwrap()) == Some(Item::Maiamai))
        .count();
    assert!(outside > 0);
}

#[test]
fn vanilla_dungeon_prizes_seed_123() {
    let graph = build_world();
    let mut settings = open_default();
    settings.logic.randomize_dungeon_prizes = false;
    let placement = fill_check_map(&graph, &settings, 123).unwrap();
    assert_sound(&graph, &settings, &placement.check_map);
    for (name, prize) in PRIZES {
        assert_eq!(held_at(&graph, &placement.check_map, name), prize);
    }
}

#[test]
fn randomized_dungeon_prizes_lie_on_prize_checks() {
    let graph = build_world();
    let mut settings = open_default();
    settings.logic.randomize_dungeon_prizes = true;
    let mut moved = false;
    for seed in 0..4 {
        let placement = fill_check_map(&graph, &settings, seed).unwrap();
        assert_sound(&graph, &settings, &placement.check_map);
        for (name, prize) in PRIZES {
            let item = held_at(&graph, &placement.check_map, name);
            assert!(is_dungeon_prize(item));
            moved = moved || item != prize;
        }
    }
    assert!(moved);
}

#[test]
fn static_items_stay() {
    let graph = build_world();
    let mut settings = open_default();
    settings.logic.mode = LogicMode::GlitchHell;
    settings.logic.super_items = true;
    settings.logic.assured_weapon = true;
    settings.logic.bell_in_shop = true;
    settings.logic.pouch_in_shop = true;
    settings.logic.boots_in_shop = true;
    settings.logic.minigames_excluded = true;
    settings.logic.maiamai_madness = true;
    settings.logic.randomize_dungeon_prizes = true;
    for seed in [3, 4] {
        let placement = fill_check_map(&graph, &settings, seed).unwrap();
        let map = &placement.check_map;
        assert_sound(&graph, &settings, map);
        assert_eq!(held_at(&graph, map, "Shore"), FillerItem::LetterInABottle);
        assert_eq!(held_at(&graph, map, "Cucco Dungeon"), FillerItem::RupeeSilver39);
        assert_eq!(held_at(&graph, map, "[TR] (1F) Under Center"), FillerItem::RupeeSilver40);
        assert_eq!(held_at(&graph, map, "[TR] (B1) Under Center"), FillerItem::RupeeGold09);
        assert_eq!(held_at(&graph, map, "[PD] (2F) South Hidden Room"), FillerItem::RupeeGold10);
        // the shop holds the bell, the pouch, the boots and a weapon
        let shop: Vec<FillerItem> =
            (1..=5).map(|slot| held_at(&graph, map, &format!("Ravio ({})", slot))).collect();
        assert!(shop.contains(&FillerItem::Bell));
        assert!(shop.contains(&FillerItem::Pouch));
        assert!(shop.contains(&FillerItem::PegasusBoots));
        let weapons = [
            FillerItem::Bow01,
            FillerItem::Bombs01,
            FillerItem::FireRod01,
            FillerItem::IceRod01,
            FillerItem::Hammer01,
            FillerItem::Sword01,
            FillerItem::Sword02,
            FillerItem::Sword03,
            FillerItem::Sword04,
            FillerItem::Lamp01,
            FillerItem::Net01,
        ];
        assert!(shop.iter().any(|item| weapons.contains(item)));
        // the minigames hold filler
        for name in [
            "Cucco Ranch",
            "Hyrule Hotfoot",
            "Rupee Rush (Hyrule)",
            "Rupee Rush (Lorule)",
            "Octoball Derby",
            "Treacherous Tower (Intermediate)",
            "[Mai] Hyrule Rupee Rush Wall",
            "[Mai] Lorule Rupee Rush Wall",
        ] {
            assert!(is_trash(held_at(&graph, map, name)), "{} holds no filler", name);
        }
        // hell logic has no bee badge, and the upgraded lamp and net are in
        let items = bound(map);
        assert!(!items.contains(&FillerItem::BeeBadge));
        assert!(items.contains(&FillerItem::Lamp02));
        assert!(items.contains(&FillerItem::Net02));
    }
}

#[test]
fn excluded_cucco_ranch_holds_filler_seed_7() {
    let graph = build_world();
    let mut settings = open_default();
    settings.exclusions = Exclusion(vec!["Cucco Ranch".to_string()]);
    let placement = fill_check_map(&graph, &settings, 7).unwrap();
    assert_sound(&graph, &settings, &placement.check_map);
    let item = held_at(&graph, &placement.check_map, "Cucco Ranch");
    assert!(is_trash(item));
    let mut rng = StdRng::seed_from_u64(7);
    let (_, trash) = get_item_pools(&settings, &mut rng);
    assert!(trash.contains(&item));
}

#[test]
fn unknown_exclusion_atlantis() {
    let graph = build_world();
    let mut settings = open_default();
    settings.exclusions = Exclusion(vec!["Cucco Ranch".to_string(), "Atlantis".to_string()]);
    assert_eq!(
        fill_check_map(&graph, &settings, 5).err(),
        Some(FillError::UnknownExclusion("Atlantis".to_string()))
    );
    assert_eq!(
        fill_stuff(&graph, &settings, 5).err(),
        Some(FillError::UnknownExclusion("Atlantis".to_string()))
    );
}

#[test]
fn same_seed_same_placement() {
    let graph = build_world();
    let mut settings = open_default();
    settings.logic.randomize_dungeon_prizes = true;
    settings.logic.maiamai_madness = true;
    let first = fill_stuff(&graph, &settings, 2024).unwrap();
    let again = fill_stuff(&graph, &settings, 2024).unwrap();
    let other = fill_stuff(&graph, &settings, 2025).unwrap();
    assert_eq!(first, again);
    assert_ne!(first, other);
    let a = fill_check_map(&graph, &settings, 2024).unwrap();
    let b = fill_check_map(&graph, &settings, 2024).unwrap();
    assert_eq!(a.check_map, b.check_map);
}

#[test]
fn a_world_too_small_is_a_mismatch() {
    let mut graph = WorldGraph::new("Ravio's Shop");
    place(&mut graph, 0, World::Hyrule, "Ravio's Shop", "Ravio (1)");
    let settings = open_default();
    assert_eq!(
        fill_check_map(&graph, &settings, 0).err(),
        Some(FillError::TrashMismatch { empty: 0, trash: 88 })
    );
}

#[test]
fn duplicate_names_are_refused() {
    let mut graph = WorldGraph::new("Ravio's Shop");
    place(&mut graph, 0, World::Hyrule, "Ravio's Shop", "Ravio (1)");
    place(&mut graph, 0, World::Hyrule, "Ravio's Shop", "Ravio (2)");
    place(&mut graph, 0, World::Hyrule, "Ravio's Shop", "Ravio (1)");
    assert_eq!(prefill_check_map(&graph).err(), Some(FillError::DuplicateCheck("Ravio (1)".to_string())));
    assert_eq!(
        fill_stuff(&graph, &open_default(), 0).err(),
        Some(FillError::DuplicateCheck("Ravio (1)".to_string()))
    );
    assert_eq!(
        verify_all_locations_accessible(&graph, &vec![], &open_default()).err(),
        Some(FillError::DuplicateCheck("Ravio (1)".to_string()))
    );
}

#[test]
fn a_check_out_of_reach_is_refused() {
    let mut graph = WorldGraph::new("Ravio's Shop");
    place(&mut graph, 0, World::Hyrule, "Ravio's Shop", "Ravio (1)");
    let island = graph.add_location("Island");
    assert!(graph.add_path(0, island, Guard::Has(FillerItem::Triforce)));
    place(&mut graph, island, World::Hyrule, "Island", "Island Chest");
    place(&mut graph, island, World::Hyrule, "Island", "Island Cave");
    let settings = open_default();
    assert_eq!(
        verify_all_locations_accessible(&graph, &vec![FillerItem::Bow01], &settings).err(),
        Some(FillError::Unreachable { reachable: 1, total: 3 })
    );
    assert_eq!(
        fill_stuff(&graph, &settings, 0).err(),
        Some(FillError::Unreachable { reachable: 1, total: 3 })
    );
    assert_eq!(verify_all_locations_accessible(&graph, &vec![FillerItem::Triforce], &settings), Ok(()));
}

#[test]
fn no_room_in_the_castle_or_in_the_shop() {
    let mut graph = build_world();
    let mut settings = open_default();
    settings.logic.bell_in_shop = true;
    assert!(fill_check_map(&graph, &settings, 0).is_ok());
    // a world without a shop
    let mut bare = WorldGraph::new("Ravio's Shop");
    place(&mut bare, 0, World::Hyrule, "Ravio's Shop", "Ravio (6)");
    assert_eq!(fill_check_map(&bare, &settings, 0).err(), Some(FillError::NoPlace(FillerItem::Bell)));
    settings.logic.bell_in_shop = false;
    settings.logic.bow_of_light_in_castle = true;
    assert_eq!(fill_check_map(&bare, &settings, 0).err(), Some(FillError::NoPlace(FillerItem::BowOfLight)));
    // more than a hundred checks where a maiamai hides
    settings.logic.bow_of_light_in_castle = false;
    place(&mut graph, 0, World::Hyrule, "Ravio's Shop", "[Mai] One Too Many");
    assert_eq!(fill_check_map(&graph, &settings, 0).err(), Some(FillError::OutOfMaiamai));
}

#[test]
fn fill_trash_wants_as_many_fillers_as_empty_checks() {
    let mut rng = StdRng::seed_from_u64(11);
    let slots = vec![None, Some(FillerItem::Bow01), None, None];
    let mut check_map = CheckMap { slots: slots.clone() };
    let two = vec![FillerItem::RupeeRed, FillerItem::RupeeBlue];
    assert_eq!(
        fill_trash(&mut check_map, &mut rng, &two),
        Err(FillError::TrashMismatch { empty: 3, trash: 2 })
    );
    assert_eq!(check_map.slots, slots);
    let three = vec![FillerItem::RupeeRed, FillerItem::MonsterGuts, FillerItem::RupeeRed];
    assert_eq!(fill_trash(&mut check_map, &mut rng, &three), Ok(()));
    assert_eq!(check_map.get(1), Some(FillerItem::Bow01));
    let placed = vec![check_map.get(0).unwrap(), check_map.get(2).unwrap(), check_map.get(3).unwrap()];
    assert_eq!(sorted(&placed), sorted(&three));
    assert_eq!(fill_trash(&mut check_map, &mut rng, &vec![]), Ok(()));
}

#[test]
fn assumed_fill_keeps_the_key_outside_its_door() {
    // the hammer opens the cave: it has to lie outside
    for seed in 0..20 {
        let mut graph = WorldGraph::new("Ravio's Shop");
        place(&mut graph, 0, World::Hyrule, "Ravio's Shop", "Ravio (1)");
        place(&mut graph, 0, World::Hyrule, "Ravio's Shop", "Ravio (2)");
        let cave = graph.add_location("Cave");
        assert!(graph.add_path(0, cave, Guard::Has(FillerItem::Hammer01)));
        place(&mut graph, cave, World::Hyrule, "Cave", "Cave Left");
        place(&mut graph, cave, World::Hyrule, "Cave", "Cave Right");
        let settings = open_default();
        let mut check_map = prefill_check_map(&graph).unwrap();
        let mut pool = vec![FillerItem::Hammer01, FillerItem::Bow01, FillerItem::Bombs01];
        let mut rng = StdRng::seed_from_u64(seed);
        let skipped = assumed_fill(&graph, &mut rng, &mut pool, &mut check_map, &settings);
        assert!(skipped.is_empty());
        assert!(pool.is_empty());
        let hammer = (0..4).find(|c| check_map.get(*c) == Some(FillerItem::Hammer01)).unwrap();
        assert!(hammer < 2);
        let placed: Vec<FillerItem> = (0..4).filter_map(|c| check_map.get(c)).collect();
        assert_eq!(sorted(&placed), sorted(&[FillerItem::Hammer01, FillerItem::Bow01, FillerItem::Bombs01]));
        assert_eq!(assumed_search(&graph, &vec![], &check_map, &settings).len(), 4);
    }
}

#[test]
fn assumed_fill_skips_an_item_without_a_place() {
    let mut graph = WorldGraph::new("Ravio's Shop");
    place(&mut graph, 0, World::Hyrule, "Ravio's Shop", "Ravio (1)");
    place(&mut graph, 0, World::Hyrule, "Ravio's Shop", "Ravio (2)");
    let settings = open_default();
    let mut check_map = prefill_check_map(&graph).unwrap();
    // no check of this world may hold a prize or an eastern key
    let mut pool = vec![FillerItem::SageOren, FillerItem::EasternKeyBig, FillerItem::Bow01];
    let mut rng = StdRng::seed_from_u64(1);
    let skipped = assumed_fill(&graph, &mut rng, &mut pool, &mut check_map, &settings);
    assert_eq!(skipped, vec![FillerItem::SageOren, FillerItem::EasternKeyBig]);
    assert!(pool.is_empty());
    let bows = (0..2).filter(|c| check_map.get(*c) == Some(FillerItem::Bow01)).count();
    assert_eq!(bows, 1);
}

#[test]
fn assumed_fill_stops_when_nothing_empty_is_in_reach() {
    let mut graph = WorldGraph::new("Ravio's Shop");
    place(&mut graph, 0, World::Hyrule, "Ravio's Shop", "Ravio (1)");
    let settings = open_default();
    let mut check_map = prefill_check_map(&graph).unwrap();
    let mut pool = vec![FillerItem::Bow01, FillerItem::Bombs01, FillerItem::Hammer01];
    let mut rng = StdRng::seed_from_u64(1);
    let skipped = assumed_fill(&graph, &mut rng, &mut pool, &mut check_map, &settings);
    assert!(skipped.is_empty());
    assert_eq!(check_map.get(0), Some(FillerItem::Bow01));
    assert_eq!(pool, vec![FillerItem::Bombs01, FillerItem::Hammer01]);
}

#[test]
fn result_lists_the_checks_to_patch() {
    let mut graph = WorldGraph::new("Ravio's Shop");
    place(&mut graph, 0, World::Hyrule, "Ravio's Shop", "Ravio (1)");
    assert!(graph.add_check(0, "Doors", Some(FillerItem::OpenSanctuaryDoors), Guard::Open, None).is_some());
    place(&mut graph, 0, World::Lorule, "Ravio's Shop", "Ravio (2)");
    let mut check_map = prefill_check_map(&graph).unwrap();
    assert_eq!(check_map.slots, vec![None, Some(FillerItem::OpenSanctuaryDoors), None]);
    assert_eq!(map_to_result(&graph, &check_map).err(), Some(FillError::Unbound("Ravio (1)".to_string())));
    check_map.insert(0, FillerItem::RupeeSilver07);
    check_map.insert(2, FillerItem::Triforce);
    assert_eq!(map_to_result(&graph, &check_map).err(), Some(FillError::Unmappable(FillerItem::Triforce)));
    check_map.insert(2, FillerItem::Lamp02);
    assert_eq!(
        map_to_result(&graph, &check_map),
        Ok(vec![
            (LocationInfo::new(World::Hyrule, "Ravio's Shop", "Ravio (1)"), Item::RupeeSilver),
            (LocationInfo::new(World::Lorule, "Ravio's Shop", "Ravio (2)"), Item::ItemKandelaar),
        ])
    );
}

#[test]
fn filler_goes_to_the_empty_check_that_was_drawn() {
    let mut check_map = CheckMap { slots: vec![None, Some(FillerItem::Bow01), None, None] };
    let mut empty = vec![0, 2, 3];
    fill_empty_at(&mut check_map, &mut empty, 1, FillerItem::MonsterGuts);
    assert_eq!(check_map.slots, vec![None, Some(FillerItem::Bow01), Some(FillerItem::MonsterGuts), None]);
    assert_eq!(empty, vec![0, 3]);
}

#[test]
fn an_excluded_static_check_holds_filler() {
    let graph = build_world();
    let mut settings = open_default();
    settings.exclusions = Exclusion(vec!["Shore".to_string()]);
    // the letter was bound to the shore and has left the pool; the filler that takes its place
    // leaves one check more than there is filler
    assert_eq!(
        fill_check_map(&graph, &settings, 3).err(),
        Some(FillError::TrashMismatch { empty: 88, trash: 87 })
    );
}

#[test]
fn an_item_is_bound_to_the_candidate_drawn_or_left_out() {
    let mut check_map = CheckMap { slots: vec![None, None, Some(FillerItem::Bell), None] };
    let mut skipped = vec![FillerItem::SageOren];
    place_or_skip(FillerItem::Bow01, &vec![3, 0], 0, &mut check_map, &mut skipped);
    assert_eq!(check_map.slots, vec![None, None, Some(FillerItem::Bell), Some(FillerItem::Bow01)]);
    assert_eq!(skipped, vec![FillerItem::SageOren]);
    place_or_skip(FillerItem::IceKeyBig, &vec![], 0, &mut check_map, &mut skipped);
    assert_eq!(check_map.slots, vec![None, None, Some(FillerItem::Bell), Some(FillerItem::Bow01)]);
    assert_eq!(skipped, vec![FillerItem::SageOren, FillerItem::IceKeyBig]);
}

#[test]
fn every_check_bound_by_the_fill_was_within_reach_without_its_item() {
    // the bow opens the tower, the hammer the cave behind the tower
    for seed in 0..20 {
        let mut graph = WorldGraph::new("Ravio's Shop");
        for slot in 1..=3 {
            place(&mut graph, 0, World::Hyrule, "Ravio's Shop", &format!("Ravio ({})", slot));
        }
        let tower = graph.add_location("Tower");
        assert!(graph.add_path(0, tower, Guard::Has(FillerItem::Bow01)));
        place(&mut graph, tower, World::Hyrule, "Tower", "Tower Top");
        place(&mut graph, tower, World::Hyrule, "Tower", "Tower Base");
        let cave = graph.add_location("Cave");
        assert!(graph.add_path(tower, cave, Guard::Has(FillerItem::Hammer01)));
        place(&mut graph, cave, World::Hyrule, "Cave", "Cave Chest");
        let settings = open_default();
        let mut check_map = prefill_check_map(&graph).unwrap();
        let mut pool = vec![FillerItem::Hammer01, FillerItem::Bow01, FillerItem::Bell, FillerItem::Pouch];
        let mut rng = StdRng::seed_from_u64(seed);
        let skipped = assumed_fill(&graph, &mut rng, &mut pool, &mut check_map, &settings);
        assert!(skipped.is_empty());
        assert!(pool.is_empty());
        let at = |item: FillerItem| (0..6).find(|c| check_map.get(*c) == Some(item)).unwrap();
        // the hammer lies outside the cave, the bow outside the tower and the cave
        assert!(at(FillerItem::Hammer01) < 5);
        assert!(at(FillerItem::Bow01) < 3);
        assert_eq!(assumed_search(&graph, &vec![], &check_map, &settings).len(), 6);
    }
}
