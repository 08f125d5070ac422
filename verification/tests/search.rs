use rand::rngs::StdRng;
use rand::SeedableRng;
use randomizer::check_map::CheckMap;
use randomizer::filter::{
    exist_empty_reachable_check, filter_checks, filter_dungeon_checks, filter_dungeon_prize_checks,
};
use randomizer::guard::Guard;
use randomizer::item::FillerItem;
use randomizer::placement::{
    exclude, exclude_at, place_item_at, place_item_randomly, place_static, remove_item,
};
use randomizer::spots::{find_spots, Spot};
use randomizer::pools::{
    get_item_pools, maiamai_pool, order_progression_pools, shuffle_items, shuffle_step,
};
use randomizer::exclusions::{check_exclusions, handle_exclusions};
use randomizer::preplace::preplace_items;
use randomizer::error::FillError;
use randomizer::progress::Progress;
use randomizer::search::{
    assumed_search, build_progress_from_items, find_reachable_checks, get_items_from_reachable_checks,
};
use randomizer::settings::{open_default, Exclusion, Logic, LogicMode};
use randomizer::world::WorldGraph;

fn check(graph: &mut WorldGraph, location: usize, name: &str, guard: Guard) -> usize {
    graph.add_check(location, name, None, guard, None).unwrap()
}

fn sorted(items: &[FillerItem]) -> Vec<usize> {
    let mut at: Vec<usize> = items.iter().map(|item| item.index()).collect();
    at.sort();
    at
}

/// Shop -> Field -> Cave (hammer), Field -> Tower (bow), Tower -> Peak,
/// Cave -> Field; the checks are declared across the locations in turn.
fn small_world() -> WorldGraph {
    let mut graph = WorldGraph::new("Shop");
    let field = graph.add_location("Field");
    let cave = graph.add_location("Cave");
    let tower = graph.add_location("Tower");
    let peak = graph.add_location("Peak");
    assert!(graph.add_path(0, field, Guard::Open));
    assert!(graph.add_path(field, tower, Guard::Has(FillerItem::Bow01)));
    assert!(graph.add_path(field, cave, Guard::Has(FillerItem::Hammer01)));
    assert!(graph.add_path(cave, field, Guard::Open));
    assert!(graph.add_path(tower, peak, Guard::Open));
    assert!(graph.add_path(field, 0, Guard::Open));
    assert_eq!(check(&mut graph, peak, "Peak", Guard::Open), 0);
    assert_eq!(check(&mut graph, 0, "Shop Left", Guard::Open), 1);
    assert_eq!(check(&mut graph, cave, "Cave", Guard::Open), 2);
    assert_eq!(check(&mut graph, field, "Field High", Guard::Has(FillerItem::Hookshot01)), 3);
    assert_eq!(check(&mut graph, 0, "Shop Right", Guard::Open), 4);
    assert_eq!(check(&mut graph, tower, "Tower", Guard::Open), 5);
    assert_eq!(check(&mut graph, field, "Field Low", Guard::Open), 6);
    graph
}

fn holding(items: &[FillerItem]) -> Progress {
    let mut progress = Progress::new(Logic::default());
    for item in items {
        progress.add_item(*item);
    }
    progress
}

#[test]
fn world_graph_is_built_in_order() {
    let mut graph = small_world();
    assert_eq!(graph.location_count(), 5);
    assert_eq!(graph.check_count(), 7);
    assert_eq!(graph.nodes[0].get_checks(), &vec![1, 4]);
    assert_eq!(graph.nodes[1].get_checks(), &vec![3, 6]);
    assert_eq!(graph.nodes[1].get_paths().len(), 3);
    assert_eq!(graph.nodes[1].get_paths()[0].get_destination(), 3);
    assert_eq!(graph.checks[5].get_name(), "Tower");
    assert_eq!(graph.checks[5].location, 3);
    assert_eq!(graph.checks[5].get_quest(), None);
    assert_eq!(graph.checks[5].get_location_info(), None);
    assert_eq!(graph.find_check("Cave"), Some(2));
    assert_eq!(graph.find_check("Nowhere"), None);
    // a location that the world does not have takes neither path nor check
    assert!(!graph.add_path(0, 5, Guard::Open));
    assert!(!graph.add_path(5, 0, Guard::Open));
    assert_eq!(graph.add_check(5, "Lost", None, Guard::Open, None), None);
    assert_eq!(graph.check_count(), 7);
    assert!(graph.checks[3].can_access(&holding(&[FillerItem::Hookshot01])));
    assert!(!graph.checks[3].can_access(&holding(&[])));
    assert!(graph.nodes[1].get_paths()[1].can_access(&holding(&[FillerItem::Hammer01])));
}

#[test]
fn search_follows_the_queue() {
    let graph = small_world();
    // the shop first, then the field; nothing else opens
    assert_eq!(find_reachable_checks(&graph, &holding(&[])), vec![1, 4, 6]);
    assert_eq!(find_reachable_checks(&graph, &holding(&[FillerItem::Hookshot01])), vec![1, 4, 3, 6]);
    // the field's paths are taken in the order of their declaration: tower, then cave; the peak
    // was queued after the cave
    assert_eq!(
        find_reachable_checks(&graph, &holding(&[FillerItem::Hammer01, FillerItem::Bow01])),
        vec![1, 4, 6, 5, 2, 0]
    );
    assert_eq!(find_reachable_checks(&graph, &holding(&[FillerItem::Hammer01])), vec![1, 4, 6, 2]);
    assert_eq!(find_reachable_checks(&graph, &holding(&[FillerItem::Bow01])), vec![1, 4, 6, 5, 0]);
}

#[test]
fn a_lone_start_is_searched() {
    let mut graph = WorldGraph::new("Shop");
    assert_eq!(find_reachable_checks(&graph, &holding(&[])), vec![]);
    assert!(graph.add_path(0, 0, Guard::Open));
    check(&mut graph, 0, "Only", Guard::Open);
    assert_eq!(find_reachable_checks(&graph, &holding(&[])), vec![0]);
}

#[test]
fn assumed_search_takes_what_it_reaches() {
    let graph = small_world();
    let settings = open_default();
    let mut check_map = CheckMap { slots: vec![None; 7] };
    assert_eq!(assumed_search(&graph, &vec![], &check_map, &settings), vec![1, 4, 6]);
    // the bow lies in the cave, the hammer in the shop: the hammer opens the cave, the bow the
    // tower; the hookshot on the peak opens the last check
    check_map.insert(2, FillerItem::Bow01);
    check_map.insert(4, FillerItem::Hammer01);
    assert_eq!(assumed_search(&graph, &vec![], &check_map, &settings), vec![1, 4, 6, 5, 2, 0]);
    check_map.insert(0, FillerItem::Hookshot01);
    assert_eq!(assumed_search(&graph, &vec![], &check_map, &settings), vec![1, 4, 3, 6, 5, 2, 0]);
    // the bow behind its own door opens nothing
    let mut locked = CheckMap { slots: vec![None; 7] };
    locked.insert(5, FillerItem::Bow01);
    assert_eq!(assumed_search(&graph, &vec![], &locked, &settings), vec![1, 4, 6]);
    // what is still to be placed counts as held
    assert_eq!(assumed_search(&graph, &vec![FillerItem::Bow01], &locked, &settings), vec![1, 4, 6, 5, 0]);
}

#[test]
fn quest_items_count_from_the_start() {
    let mut graph = WorldGraph::new("Shop");
    let vault = graph.add_location("Vault");
    assert!(graph.add_path(0, vault, Guard::Has(FillerItem::AccessMilkBar)));
    check(&mut graph, 0, "Counter", Guard::Open);
    assert!(graph
        .add_check(vault, "Bar", Some(FillerItem::AccessMilkBar), Guard::Open, None)
        .is_some());
    let settings = open_default();
    let check_map = CheckMap { slots: vec![None, Some(FillerItem::AccessMilkBar)] };
    assert_eq!(assumed_search(&graph, &vec![], &check_map, &settings), vec![0, 1]);
    assert_eq!(find_reachable_checks(&graph, &holding(&[])), vec![0]);
}

#[test]
fn progress_is_built_from_items_and_checks() {
    let settings = open_default();
    let progress = build_progress_from_items(&vec![FillerItem::Bow01, FillerItem::Bell, FillerItem::Bow01], &settings);
    assert_eq!(progress.len(), 2);
    assert!(progress.has(FillerItem::Bell));
    let mut graph = WorldGraph::new("Shop");
    check(&mut graph, 0, "a", Guard::Open);
    assert!(graph.add_check(0, "b", Some(FillerItem::Yuga), Guard::Open, None).is_some());
    check(&mut graph, 0, "c", Guard::Open);
    let check_map = CheckMap {
        slots: vec![Some(FillerItem::Bombs01), Some(FillerItem::Net01), Some(FillerItem::Lamp01)],
    };
    let found = get_items_from_reachable_checks(&graph, &vec![1, 0], &check_map, &settings);
    assert_eq!(found.len(), 3);
    assert!(found.has(FillerItem::Bombs01));
    assert!(found.has(FillerItem::Net01));
    assert!(found.has(FillerItem::Yuga));
    assert!(!found.has(FillerItem::Lamp01));
}

#[test]
fn maiamai_pool_is_the_hundred_in_order() {
    let pool = maiamai_pool();
    assert_eq!(pool.len(), 100);
    assert_eq!(pool[0], FillerItem::Maiamai001);
    assert_eq!(pool[41], FillerItem::Maiamai042);
    assert_eq!(pool[99], FillerItem::Maiamai100);
}

#[test]
fn pools_of_the_default_settings() {
    let settings = open_default();
    let mut rng = StdRng::seed_from_u64(0);
    let (progression, trash) = get_item_pools(&settings, &mut rng);
    assert_eq!(progression.len(), 277);
    assert_eq!(trash.len(), 88);
    // kind after kind
    assert_eq!(sorted(&progression[0..10]), (210..220).collect::<Vec<usize>>());
    assert_eq!(sorted(&progression[10..20]), (220..230).collect::<Vec<usize>>());
    assert_eq!(sorted(&progression[20..58]), (230..268).collect::<Vec<usize>>());
    assert_eq!(sorted(&progression[58..69]), (268..279).collect::<Vec<usize>>());
    assert_eq!(sorted(&progression[69..]), (0..208).collect::<Vec<usize>>());
    // shuffled within the kinds
    assert_ne!(progression[0..10].iter().map(|i| i.index()).collect::<Vec<usize>>(), (210..220).collect::<Vec<usize>>());
    assert_eq!(trash.iter().filter(|item| **item == FillerItem::RupeeRed).count(), 19);
    assert_eq!(trash.iter().filter(|item| **item == FillerItem::RupeeBlue).count(), 8);
    assert_eq!(trash.iter().filter(|item| **item == FillerItem::RupeeGreen).count(), 2);
    assert_eq!(trash.iter().filter(|item| **item == FillerItem::MonsterTail).count(), 6);
    assert_eq!(trash.iter().filter(|item| **item == FillerItem::MonsterHorn).count(), 3);
    assert_eq!(trash.iter().filter(|item| **item == FillerItem::MonsterGuts).count(), 11);
    assert_eq!(trash.iter().filter(|item| **item == FillerItem::BeeBadge).count(), 1);
    assert_eq!(trash.iter().filter(|item| **item == FillerItem::HintGlasses).count(), 1);
    assert_eq!(trash.iter().filter(|item| **item == FillerItem::Empty).count(), 0);
    assert!(trash.contains(&FillerItem::HeartPiece27));
    assert!(trash.contains(&FillerItem::HeartContainer10));
}

#[test]
fn pools_follow_the_settings() {
    let mut settings = open_default();
    settings.logic.swordless_mode = true;
    settings.logic.super_items = true;
    settings.logic.mode = LogicMode::GlitchHell;
    let mut rng = StdRng::seed_from_u64(5);
    let (progression, trash) = get_item_pools(&settings, &mut rng);
    assert_eq!(progression.len(), 275);
    assert_eq!(trash.len(), 90);
    assert!(!progression.contains(&FillerItem::Sword01));
    assert!(progression.contains(&FillerItem::Lamp02));
    assert!(progression.contains(&FillerItem::Net02));
    assert_eq!(trash.iter().filter(|item| **item == FillerItem::Empty).count(), 4);
    assert_eq!(trash.iter().filter(|item| **item == FillerItem::MonsterTail).count(), 4);
    assert_eq!(trash.iter().filter(|item| **item == FillerItem::MonsterHorn).count(), 4);
    assert!(!trash.contains(&FillerItem::BeeBadge));
}

#[test]
fn shuffle_keeps_the_items_and_moves_them() {
    let items: Vec<FillerItem> = (0..50).map(|i| FillerItem::from_index(i).unwrap()).collect();
    let mut rng = StdRng::seed_from_u64(3);
    let shuffled = shuffle_items(items.clone(), &mut rng);
    assert_eq!(sorted(&shuffled), sorted(&items));
    assert_ne!(shuffled, items);
    let mut again = StdRng::seed_from_u64(3);
    assert_eq!(shuffle_items(items.clone(), &mut again), shuffled);
    let mut other = StdRng::seed_from_u64(4);
    assert_ne!(shuffle_items(items.clone(), &mut other), shuffled);
    assert_eq!(shuffle_items(vec![], &mut rng), vec![]);
    assert_eq!(shuffle_items(vec![FillerItem::Bell], &mut rng), vec![FillerItem::Bell]);
}

#[test]
fn shuffle_step_moves_one_item() {
    let mut items = vec![FillerItem::Bell, FillerItem::Bow01, FillerItem::Pouch];
    let mut shuffled = vec![FillerItem::Net01];
    shuffle_step(&mut items, &mut shuffled, 1);
    assert_eq!(items, vec![FillerItem::Bell, FillerItem::Pouch]);
    assert_eq!(shuffled, vec![FillerItem::Net01, FillerItem::Bow01]);
}

#[test]
fn progression_is_ordered_by_kind() {
    let settings = open_default();
    let mut rng = StdRng::seed_from_u64(8);
    let pool = order_progression_pools(
        &settings,
        &mut rng,
        vec![FillerItem::SageOren, FillerItem::SageImpa],
        vec![FillerItem::IceKeyBig],
        vec![],
        vec![FillerItem::IceCompass, FillerItem::HeraCompass],
        vec![FillerItem::Bell, FillerItem::Bow01, FillerItem::Pouch],
    );
    assert_eq!(pool.len(), 8);
    assert_eq!(sorted(&pool[0..2]), sorted(&[FillerItem::SageOren, FillerItem::SageImpa]));
    assert_eq!(pool[2], FillerItem::IceKeyBig);
    assert_eq!(sorted(&pool[3..5]), sorted(&[FillerItem::IceCompass, FillerItem::HeraCompass]));
    assert_eq!(sorted(&pool[5..]), sorted(&[FillerItem::Bell, FillerItem::Bow01, FillerItem::Pouch]));
}

fn named_world(names: &[&str]) -> WorldGraph {
    let mut graph = WorldGraph::new("Shop");
    for name in names {
        check(&mut graph, 0, name, Guard::Open);
    }
    graph
}

#[test]
fn filters_keep_the_checks_that_may_hold_the_item() {
    let graph = named_world(&[
        "[EP] (1F) Left Door Chest",
        "Eastern Palace Prize",
        "[TH] (8F) Fairy Room",
        "[T'H] (B1) Jail Cell",
        "Prize of the [EP]",
        "[EP] (2F) Defeat Popos",
        "Field",
    ]);
    let all = vec![6, 5, 4, 3, 2, 1, 0];
    assert_eq!(filter_dungeon_prize_checks(&graph, &all), vec![4, 1]);
    assert_eq!(filter_dungeon_checks(&graph, FillerItem::EasternKeySmall02, &all), vec![5, 0]);
    assert_eq!(filter_dungeon_checks(&graph, FillerItem::HeraCompass, &all), vec![2]);
    assert_eq!(filter_dungeon_checks(&graph, FillerItem::ThievesKeyBig, &all), vec![3]);
    assert_eq!(filter_dungeon_checks(&graph, FillerItem::IceKeyBig, &all), vec![]);
    let mut check_map = CheckMap { slots: vec![None; 7] };
    check_map.insert(5, FillerItem::Bow01);
    check_map.insert(4, FillerItem::Bell);
    assert_eq!(filter_checks(&graph, FillerItem::Hammer01, &all, &check_map), vec![6, 3, 2, 1, 0]);
    assert_eq!(filter_checks(&graph, FillerItem::SageSeres, &all, &check_map), vec![1]);
    assert_eq!(filter_checks(&graph, FillerItem::EasternCompass, &all, &check_map), vec![0]);
    assert_eq!(filter_checks(&graph, FillerItem::EasternCompass, &vec![5, 9, 0, 0], &check_map), vec![0, 0]);
    assert_eq!(filter_checks(&graph, FillerItem::RupeeRed, &vec![], &check_map), vec![]);
    assert!(exist_empty_reachable_check(&vec![5, 4, 3], &check_map));
    assert!(!exist_empty_reachable_check(&vec![5, 4], &check_map));
    assert!(!exist_empty_reachable_check(&vec![], &check_map));
}

#[test]
fn items_are_placed_by_name_and_by_draw() {
    let graph = named_world(&["Shore", "Cave", "Shore"]);
    let mut check_map = CheckMap { slots: vec![None, Some(FillerItem::Bell), None] };
    let mut pool = vec![FillerItem::Bow01, FillerItem::LetterInABottle, FillerItem::Bow01, FillerItem::Pouch];
    place_static(&graph, &mut check_map, &mut pool, FillerItem::Bow01, "Shore");
    assert_eq!(check_map.slots, vec![Some(FillerItem::Bow01), Some(FillerItem::Bell), None]);
    assert_eq!(pool, vec![FillerItem::LetterInABottle, FillerItem::Pouch]);
    // whatever the check held, and the item leaves the pool even without a check
    place_static(&graph, &mut check_map, &mut pool, FillerItem::Pouch, "Cave");
    place_static(&graph, &mut check_map, &mut pool, FillerItem::LetterInABottle, "Island");
    assert_eq!(check_map.slots, vec![Some(FillerItem::Bow01), Some(FillerItem::Pouch), None]);
    assert_eq!(pool, vec![]);
    let mut pool = vec![FillerItem::Bell, FillerItem::Net01, FillerItem::Bell];
    remove_item(&mut pool, FillerItem::Bell);
    assert_eq!(pool, vec![FillerItem::Net01]);
    place_item_at(FillerItem::Net01, &vec![2, 0], 0, &mut check_map);
    assert_eq!(check_map.get(2), Some(FillerItem::Net01));
    let mut rng = StdRng::seed_from_u64(0);
    assert_eq!(place_item_randomly(FillerItem::Lamp01, &vec![], &mut check_map, &mut rng), None);
    let mut seen = [false, false, false];
    for _ in 0..40 {
        let mut fresh = CheckMap { slots: vec![None; 3] };
        let index = place_item_randomly(FillerItem::Lamp01, &vec![2, 0, 1], &mut fresh, &mut rng).unwrap();
        let at = [2, 0, 1][index];
        assert_eq!(fresh.get(at), Some(FillerItem::Lamp01));
        assert_eq!(fresh.slots.iter().filter(|slot| slot.is_some()).count(), 1);
        seen[at] = true;
    }
    assert_eq!(seen, [true, true, true]);
}

#[test]
fn excluded_checks_take_filler() {
    let graph = named_world(&["Cucco Ranch", "Cave"]);
    let mut check_map = CheckMap { slots: vec![None, Some(FillerItem::Bell)] };
    let mut trash = vec![FillerItem::RupeeRed, FillerItem::MonsterGuts, FillerItem::RupeeBlue];
    exclude_at(&graph, "Cave", 1, &mut check_map, &mut trash);
    assert_eq!(check_map.slots, vec![None, Some(FillerItem::MonsterGuts)]);
    assert_eq!(trash, vec![FillerItem::RupeeRed, FillerItem::RupeeBlue]);
    let mut rng = StdRng::seed_from_u64(2);
    let before = trash.clone();
    let index = exclude(&graph, "Cucco Ranch", &mut rng, &mut check_map, &mut trash).unwrap();
    assert_eq!(check_map.get(0), Some(before[index]));
    assert_eq!(trash.len(), 1);
    assert!(exclude(&graph, "Atlantis", &mut rng, &mut check_map, &mut trash).is_ok());
    assert_eq!(trash, vec![]);
    assert_eq!(exclude(&graph, "Cave", &mut rng, &mut check_map, &mut trash), Err(FillError::OutOfTrash));
    assert_eq!(check_map.get(1), Some(FillerItem::MonsterGuts));
}

#[test]
fn exclusions_of_the_player() {
    let graph = named_world(&["Cucco Ranch", "Cave", "Woman"]);
    let mut settings = open_default();
    settings.exclusions = Exclusion(vec!["Woman".to_string(), "Cave".to_string()]);
    assert_eq!(check_exclusions(&graph, &settings), Ok(()));
    let mut check_map = CheckMap { slots: vec![None, Some(FillerItem::Bell), None] };
    let mut trash = vec![FillerItem::RupeeRed, FillerItem::MonsterGuts, FillerItem::RupeeBlue];
    let mut rng = StdRng::seed_from_u64(2);
    assert_eq!(handle_exclusions(&graph, &mut check_map, &settings, &mut rng, &mut trash), Ok(()));
    assert_eq!(check_map.get(0), None);
    let mut all = vec![check_map.get(1).unwrap(), check_map.get(2).unwrap()];
    all.extend(trash.iter());
    assert_eq!(sorted(&all), sorted(&[FillerItem::RupeeRed, FillerItem::MonsterGuts, FillerItem::RupeeBlue]));
    assert_eq!(trash.len(), 1);
    // more checks than filler: nothing is drawn or bound
    settings.exclusions = Exclusion(vec!["Woman".to_string(), "Cave".to_string()]);
    let slots = check_map.slots.clone();
    let left = trash.clone();
    assert_eq!(
        handle_exclusions(&graph, &mut check_map, &settings, &mut rng, &mut trash),
        Err(FillError::OutOfTrash)
    );
    assert_eq!(check_map.slots, slots);
    assert_eq!(trash, left);
    settings.exclusions = Exclusion(vec!["Woman".to_string(), "Atlantis".to_string(), "El Dorado".to_string()]);
    assert_eq!(check_exclusions(&graph, &settings), Err(FillError::UnknownExclusion("Atlantis".to_string())));
    let mut trash = vec![FillerItem::RupeeRed, FillerItem::MonsterGuts];
    let slots = check_map.slots.clone();
    assert_eq!(
        handle_exclusions(&graph, &mut check_map, &settings, &mut rng, &mut trash),
        Err(FillError::UnknownExclusion("Atlantis".to_string()))
    );
    // no placement has occurred: the name before the unknown one was not bound either
    assert_eq!(check_map.slots, slots);
    assert_eq!(trash, vec![FillerItem::RupeeRed, FillerItem::MonsterGuts]);
}

#[test]
fn one_exclusion_takes_one_filler_out_of_the_pool() {
    let graph = named_world(&["Cucco Ranch", "Cave"]);
    let mut settings = open_default();
    settings.exclusions = Exclusion(vec!["Cucco Ranch".to_string()]);
    for seed in 0..10 {
        let mut rng = StdRng::seed_from_u64(seed);
        let before = vec![
            FillerItem::RupeeRed,
            FillerItem::MonsterGuts,
            FillerItem::RupeeBlue,
            FillerItem::RupeeRed,
            FillerItem::HintGlasses,
        ];
        let mut trash = before.clone();
        let mut check_map = CheckMap { slots: vec![None, Some(FillerItem::Bell)] };
        assert_eq!(handle_exclusions(&graph, &mut check_map, &settings, &mut rng, &mut trash), Ok(()));
        let bound = check_map.get(0).unwrap();
        assert_eq!(check_map.get(1), Some(FillerItem::Bell));
        assert_eq!(trash.len(), 4);
        // the pool is the old one with one occurrence of the filler taken out, in the old order
        let at = (0..5)
            .find(|i| {
                let mut rest = before.clone();
                before[*i] == bound && rest.remove(*i) == bound && rest == trash
            });
        assert!(at.is_some());
    }
}

#[test]
fn spots_are_found_by_name() {
    let graph = named_world(&[
        "Ravio (1)",
        "Ravio (6)",
        "Zelda",
        "[LC] Tile Trial",
        "Ravio (2)",
        "[Mai] Lorule Castle Wall",
        "Zelda's Throne",
        "[Mai] Bush",
        "[LC",
    ]);
    let mut check_map = CheckMap { slots: vec![None; 9] };
    check_map.insert(4, FillerItem::Bell);
    check_map.insert(2, FillerItem::Pouch);
    check_map.insert(7, FillerItem::Net01);
    assert_eq!(find_spots(&graph, &check_map, Spot::Shop, true), vec![0]);
    assert_eq!(find_spots(&graph, &check_map, Spot::Shop, false), vec![0, 4]);
    assert_eq!(find_spots(&graph, &check_map, Spot::Castle, true), vec![3]);
    assert_eq!(find_spots(&graph, &check_map, Spot::Castle, false), vec![2, 3]);
    assert_eq!(find_spots(&graph, &check_map, Spot::Maiamai, true), vec![5]);
    assert_eq!(find_spots(&graph, &check_map, Spot::Maiamai, false), vec![5, 7]);
    assert!(Spot::Castle.matches("Zelda"));
    assert!(!Spot::Shop.matches("Ravio (6)"));
}

#[test]
fn preplacement_on_a_small_world() {
    let graph = named_world(&[
        "Shore",
        "Ravio (1)",
        "Ice Ruins Prize",
        "[Mai] Bush",
        "[Mai] Tree",
        "Zelda",
        "Octoball Derby",
        "Ravio (2)",
    ]);
    let mut settings = open_default();
    settings.logic.bow_of_light_in_castle = true;
    settings.logic.pouch_in_shop = true;
    settings.logic.boots_in_shop = true;
    settings.logic.minigames_excluded = true;
    let mut rng = StdRng::seed_from_u64(21);
    let (mut progression, _) = get_item_pools(&settings, &mut rng);
    let mut trash = vec![FillerItem::RupeeRed; 6];
    let mut check_map = CheckMap { slots: vec![None; 8] };
    assert_eq!(
        preplace_items(&graph, &mut check_map, &settings, &mut rng, &mut progression, &mut trash),
        Ok(())
    );
    assert_eq!(check_map.get(0), Some(FillerItem::LetterInABottle));
    assert_eq!(check_map.get(2), Some(FillerItem::SageRosso));
    assert_eq!(check_map.get(3), Some(FillerItem::Maiamai001));
    assert_eq!(check_map.get(4), Some(FillerItem::Maiamai002));
    assert_eq!(check_map.get(5), Some(FillerItem::BowOfLight));
    assert_eq!(check_map.get(6), Some(FillerItem::RupeeRed));
    let shop = vec![check_map.get(1).unwrap(), check_map.get(7).unwrap()];
    assert_eq!(sorted(&shop), sorted(&[FillerItem::Pouch, FillerItem::PegasusBoots]));
    assert_eq!(trash, vec![]);
    // what was placed, and what never varies, has left the pool
    assert_eq!(progression.len(), 277 - 5 - 10 - 2 - 3);
    for gone in [
        FillerItem::LetterInABottle,
        FillerItem::RupeeGold10,
        FillerItem::SageRosso,
        FillerItem::PendantOfWisdom,
        FillerItem::Maiamai002,
        FillerItem::BowOfLight,
        FillerItem::Pouch,
        FillerItem::PegasusBoots,
    ] {
        assert!(!progression.contains(&gone));
    }
    assert!(progression.contains(&FillerItem::Bell));
    assert!(progression.contains(&FillerItem::Maiamai003));
    // too little filler for the minigames
    let mut check_map = CheckMap { slots: vec![None; 8] };
    let mut trash = vec![FillerItem::RupeeRed; 5];
    assert_eq!(
        preplace_items(&graph, &mut check_map, &settings, &mut rng, &mut progression, &mut trash),
        Err(FillError::OutOfTrash)
    );
    // three items for a shop of two
    settings.logic.bell_in_shop = true;
    let mut check_map = CheckMap { slots: vec![None; 8] };
    assert_eq!(
        preplace_items(&graph, &mut check_map, &settings, &mut rng, &mut progression, &mut trash),
        Err(FillError::NoPlace(FillerItem::PegasusBoots))
    );
}
