use randomizer::game::{convert, Item};
use randomizer::guard::{Guard, Switch};
use randomizer::item::{
    dungeon_of, is_dungeon_item, is_dungeon_local, is_dungeon_prize, is_progression, is_trash, Dungeon,
    FillerItem, ITEM_COUNT,
};
use randomizer::progress::Progress;
use randomizer::regions;
use randomizer::regions::LocationInfo;
use randomizer::settings::{
    open_default, Barrier, Exclude, Exclusion, Logic, LogicMode, Options, Progression, Settings,
    World,
};
use randomizer::text::{
    chars_of, contains, decimal_len, join, pad_decimal, push_decimal, same_text, starts_with,
};

#[test]
fn catalogue_positions_round_trip() {
    for i in 0..ITEM_COUNT {
        let item = FillerItem::from_index(i).unwrap();
        assert_eq!(item.index(), i);
    }
    assert_eq!(FillerItem::from_index(ITEM_COUNT), None);
    assert_eq!(FillerItem::Bow01.index(), 0);
    assert_eq!(FillerItem::Maiamai001.index(), 104);
    assert_eq!(FillerItem::from_index(210), Some(FillerItem::PendantOfCourage));
}

#[test]
fn dungeon_prizes_are_the_ten() {
    let prizes = [
        FillerItem::PendantOfPower,
        FillerItem::PendantOfWisdom,
        FillerItem::PendantOfCourage,
        FillerItem::SageGulley,
        FillerItem::SageOren,
        FillerItem::SageSeres,
        FillerItem::SageOsfala,
        FillerItem::SageImpa,
        FillerItem::SageIrene,
        FillerItem::SageRosso,
    ];
    let mut count = 0;
    for i in 0..ITEM_COUNT {
        let item = FillerItem::from_index(i).unwrap();
        assert_eq!(is_dungeon_prize(item), prizes.contains(&item));
        if is_dungeon_prize(item) {
            count += 1;
        }
    }
    assert_eq!(count, 10);
}

#[test]
fn dungeon_items_have_their_dungeon() {
    assert_eq!(dungeon_of(FillerItem::HyruleSanctuaryKey), Some(Dungeon::HyruleSanctuary));
    assert_eq!(dungeon_of(FillerItem::LoruleSanctuaryKey), Some(Dungeon::LoruleSanctuary));
    assert_eq!(dungeon_of(FillerItem::EasternKeyBig), Some(Dungeon::EasternPalace));
    assert_eq!(dungeon_of(FillerItem::GalesKeySmall04), Some(Dungeon::HouseOfGales));
    assert_eq!(dungeon_of(FillerItem::HeraCompass), Some(Dungeon::TowerOfHera));
    assert_eq!(dungeon_of(FillerItem::DarkKeySmall01), Some(Dungeon::DarkPalace));
    assert_eq!(dungeon_of(FillerItem::SwampKeyBig), Some(Dungeon::SwampPalace));
    assert_eq!(dungeon_of(FillerItem::SkullKeySmall03), Some(Dungeon::SkullWoods));
    assert_eq!(dungeon_of(FillerItem::ThievesKeySmall), Some(Dungeon::ThievesHideout));
    assert_eq!(dungeon_of(FillerItem::IceCompass), Some(Dungeon::IceRuins));
    assert_eq!(dungeon_of(FillerItem::DesertKeySmall05), Some(Dungeon::DesertPalace));
    assert_eq!(dungeon_of(FillerItem::TurtleKeyBig), Some(Dungeon::TurtleRock));
    assert_eq!(dungeon_of(FillerItem::LoruleCastleKeySmall05), Some(Dungeon::LoruleCastle));
    assert_eq!(dungeon_of(FillerItem::Bow01), None);
    assert_eq!(dungeon_of(FillerItem::SageRosso), None);
    assert!(is_dungeon_local(FillerItem::SkullKeyBig, Dungeon::SkullWoods));
    assert!(!is_dungeon_local(FillerItem::SkullKeyBig, Dungeon::SwampPalace));
    assert!(!is_dungeon_local(FillerItem::Bow01, Dungeon::SwampPalace));
    let mut count = 0;
    for i in 0..ITEM_COUNT {
        let item = FillerItem::from_index(i).unwrap();
        assert_eq!(is_dungeon_item(item), dungeon_of(item).is_some());
        if is_dungeon_item(item) {
            count += 1;
        }
    }
    assert_eq!(count, 59);
}

#[test]
fn dungeon_tags() {
    assert_eq!(Dungeon::HyruleSanctuary.prefix(), "[HS]");
    assert_eq!(Dungeon::LoruleSanctuary.prefix(), "[LS]");
    assert_eq!(Dungeon::EasternPalace.prefix(), "[EP]");
    assert_eq!(Dungeon::HouseOfGales.prefix(), "[HG]");
    assert_eq!(Dungeon::TowerOfHera.prefix(), "[TH]");
    assert_eq!(Dungeon::DarkPalace.prefix(), "[PD]");
    assert_eq!(Dungeon::SwampPalace.prefix(), "[SP]");
    assert_eq!(Dungeon::SkullWoods.prefix(), "[SW]");
    assert_eq!(Dungeon::ThievesHideout.prefix(), "[T'H]");
    assert_eq!(Dungeon::IceRuins.prefix(), "[IR]");
    assert_eq!(Dungeon::DesertPalace.prefix(), "[DP]");
    assert_eq!(Dungeon::TurtleRock.prefix(), "[TR]");
    assert_eq!(Dungeon::LoruleCastle.prefix(), "[LC]");
}

#[test]
fn trash_and_progression_part_the_pools() {
    assert!(is_progression(FillerItem::Bow01));
    assert!(is_progression(FillerItem::LoruleCastleCompass));
    assert!(!is_progression(FillerItem::HintGlasses));
    assert!(is_trash(FillerItem::HintGlasses));
    assert!(is_trash(FillerItem::Empty));
    assert!(is_trash(FillerItem::HeartContainer10));
    assert!(!is_trash(FillerItem::Triforce));
    assert!(!is_progression(FillerItem::Triforce));
    assert!(!is_trash(FillerItem::Sword01));
}

#[test]
fn tags_map_to_game_items() {
    assert_eq!(convert(FillerItem::RupeeSilver01), Some(Item::RupeeSilver));
    assert_eq!(convert(FillerItem::RupeeSilver40), Some(Item::RupeeSilver));
    assert_eq!(convert(FillerItem::RupeePurple18), Some(Item::RupeePurple));
    assert_eq!(convert(FillerItem::RupeeGold10), Some(Item::RupeeGold));
    assert_eq!(convert(FillerItem::Maiamai100), Some(Item::Maiamai));
    assert_eq!(convert(FillerItem::Sword03), Some(Item::ItemSwordLv1));
    assert_eq!(convert(FillerItem::Bottle05), Some(Item::ItemBottle));
    assert_eq!(convert(FillerItem::TurtleKeyBig), Some(Item::KeyBoss));
    assert_eq!(convert(FillerItem::ThievesKeySmall), Some(Item::KeySmall));
    assert_eq!(convert(FillerItem::IceCompass), Some(Item::Compass));
    assert_eq!(convert(FillerItem::HeartPiece27), Some(Item::HeartPiece));
    assert_eq!(convert(FillerItem::HeartContainer01), Some(Item::HeartContainer));
    assert_eq!(convert(FillerItem::BowOfLight), Some(Item::ItemBowLight));
    assert_eq!(convert(FillerItem::Empty), Some(Item::Empty));
    assert_eq!(convert(FillerItem::SageImpa), Some(Item::SageImpa));
    assert_eq!(convert(FillerItem::Triforce), None);
    assert_eq!(convert(FillerItem::ScootFruit), None);
    for i in 0..325 {
        assert!(convert(FillerItem::from_index(i).unwrap()).is_some());
    }
}

#[test]
fn text_tests() {
    assert_eq!(chars_of("[T'H]"), vec!['[', 'T', '\'', 'H', ']']);
    assert!(starts_with("[LC] Tile Trial", "[LC]"));
    assert!(!starts_with("[L", "[LC]"));
    assert!(!starts_with("Zelda", "[LC]"));
    assert!(starts_with("anything", ""));
    assert!(contains("Eastern Palace Prize", "Prize"));
    assert!(contains("Prize", "Prize"));
    assert!(!contains("Priz", "Prize"));
    assert!(!contains("Ravio (1)", "6"));
    assert!(contains("Ravio (6)", "6"));
    assert!(contains("", ""));
    assert!(same_text("Shore", "Shore"));
    assert!(!same_text("Shore", "Shores"));
    assert!(!same_text("Shore", "shore"));
}

#[test]
fn default_settings_choose_nothing() {
    let settings = open_default();
    assert!(!settings.dev_mode);
    assert_eq!(settings.logic, Logic::default());
    assert_eq!(settings.logic.mode, LogicMode::Normal);
    assert!(!settings.logic.bow_of_light_in_castle);
    assert!(!settings.logic.swordless_mode);
    assert_eq!(settings.logic.lc_requirement, 0);
    assert_eq!(settings.options, Options::default());
    assert!(settings.exclusions.0.is_empty());
    assert!(settings.exclude.is_empty());
    assert!(Exclude::new().is_empty());
    assert!(World::default().is_empty());
    assert!(Exclusion::default().0.is_empty());
    let same = Settings::default();
    assert_eq!(same.logic, settings.logic);
}

#[test]
fn progression_and_barrier() {
    assert!(Progression::Shuffled.is_shuffled());
    assert!(!Progression::Unchanged.is_shuffled());
    assert_eq!(Progression::default(), Progression::Unchanged);
    assert!(Barrier::Start.is_start());
    assert!(!Barrier::Unchanged.is_start());
    assert_eq!(Barrier::default(), Barrier::Unchanged);
}

#[test]
fn logic_modes_rise() {
    assert!(LogicMode::Hard.allows(LogicMode::Normal));
    assert!(LogicMode::Hard.allows(LogicMode::Hard));
    assert!(!LogicMode::Hard.allows(LogicMode::GlitchBasic));
    assert!(LogicMode::NoLogic.allows(LogicMode::GlitchHell));
    assert!(!LogicMode::Normal.allows(LogicMode::NoLogic));
}

#[test]
fn excluded_checks_are_found_by_world_region_and_name() {
    let mut settings = open_default();
    settings.exclude.hyrule = World(vec![
        ("Kakariko Village".to_string(), vec!["Woman".to_string(), "Shady Guy".to_string()]),
        ("Lost Woods".to_string(), vec![]),
    ]);
    settings.exclude.dungeons =
        World(vec![("Eastern Palace".to_string(), vec!["Woman".to_string()])]);
    let woman = LocationInfo::new(regions::World::Hyrule, "Kakariko Village", "Woman");
    let shady = LocationInfo::new(regions::World::Hyrule, "Kakariko Village", "Shady Guy");
    let other = LocationInfo::new(regions::World::Hyrule, "Kakariko Village", "Bee Guy (1)");
    let elsewhere = LocationInfo::new(regions::World::Lorule, "Kakariko Village", "Woman");
    let region = LocationInfo::new(regions::World::Hyrule, "Lost Woods", "Woman");
    let dungeon = LocationInfo::new(regions::World::Dungeons, "Eastern Palace", "Woman");
    assert!(settings.is_excluded(&woman));
    assert!(settings.is_excluded(&shady));
    assert!(!settings.is_excluded(&other));
    assert!(!settings.is_excluded(&elsewhere));
    assert!(!settings.is_excluded(&region));
    assert!(settings.is_excluded(&dungeon));
    assert!(!open_default().is_excluded(&woman));
    assert_eq!(woman.world(), regions::World::Hyrule);
    assert_eq!(woman.region(), "Kakariko Village");
    assert_eq!(woman.name(), "Woman");
    assert_eq!(woman.clone(), woman);
}

#[test]
fn progress_holds_what_was_added() {
    let mut progress = Progress::new(Logic::default());
    assert!(progress.is_empty());
    assert_eq!(progress.len(), 0);
    progress.add_item(FillerItem::Bow01);
    progress.add_item(FillerItem::Bow01);
    progress.add_item(FillerItem::Triforce);
    assert!(progress.has(FillerItem::Bow01));
    assert!(progress.has(FillerItem::Triforce));
    assert!(!progress.has(FillerItem::Bombs01));
    assert_eq!(progress.len(), 2);
    assert!(!progress.is_empty());
    assert_eq!(progress.settings(), Logic::default());
    let list = vec![FillerItem::Bow01, FillerItem::Bombs01, FillerItem::Bow01, FillerItem::Triforce];
    assert_eq!(progress.count_held(&list), 3);
}

#[test]
fn difference_lists_what_only_one_holds() {
    let mut a = Progress::new(Logic::default());
    let mut b = Progress::new(Logic::default());
    a.add_item(FillerItem::Triforce);
    a.add_item(FillerItem::Hammer01);
    a.add_item(FillerItem::Bow01);
    b.add_item(FillerItem::Hammer01);
    b.add_item(FillerItem::Net01);
    assert_eq!(a.difference(&b), vec![FillerItem::Bow01, FillerItem::Triforce]);
    assert_eq!(b.difference(&a), vec![FillerItem::Net01]);
    assert_eq!(a.difference(&a), vec![]);
}

fn with(items: &[FillerItem], logic: Logic) -> Progress {
    let mut progress = Progress::new(logic);
    for item in items {
        progress.add_item(*item);
    }
    progress
}

#[test]
fn guards_open_as_they_say() {
    let plain = Logic::default();
    let nothing = with(&[], plain);
    let bow = with(&[FillerItem::Bow01], plain);
    let both = with(&[FillerItem::Bow01, FillerItem::Bombs01], plain);
    assert!(Guard::Open.can_access(&nothing));
    assert!(!Guard::Shut.can_access(&both));
    assert!(!Guard::Has(FillerItem::Bow01).can_access(&nothing));
    assert!(Guard::Has(FillerItem::Bow01).can_access(&bow));
    let all = Guard::All(vec![Guard::Has(FillerItem::Bow01), Guard::Has(FillerItem::Bombs01)]);
    assert!(!all.can_access(&bow));
    assert!(all.can_access(&both));
    assert!(Guard::All(vec![]).can_access(&nothing));
    let any = Guard::Any(vec![Guard::Has(FillerItem::Hammer01), Guard::Has(FillerItem::Bow01)]);
    assert!(!any.can_access(&nothing));
    assert!(any.can_access(&bow));
    assert!(!Guard::Any(vec![]).can_access(&both));
    let bottles = vec![FillerItem::Bottle01, FillerItem::Bottle02, FillerItem::Bottle03];
    let two = with(&[FillerItem::Bottle03, FillerItem::Bottle01], plain);
    assert!(Guard::AtLeast(2, bottles.clone()).can_access(&two));
    assert!(!Guard::AtLeast(3, bottles.clone()).can_access(&two));
    assert!(Guard::AtLeast(0, bottles).can_access(&nothing));
    let nested = Guard::Any(vec![
        Guard::All(vec![Guard::Has(FillerItem::Hammer01), Guard::Mode(LogicMode::Hard)]),
        Guard::All(vec![Guard::Has(FillerItem::Bow01), Guard::Open]),
    ]);
    assert!(nested.can_access(&bow));
    assert!(!nested.can_access(&nothing));
}

#[test]
fn guards_read_the_settings() {
    let mut logic = Logic::default();
    logic.mode = LogicMode::GlitchBasic;
    logic.lampless = true;
    logic.lc_requirement = 2;
    let nothing = with(&[], logic);
    assert!(Guard::Mode(LogicMode::Hard).can_access(&nothing));
    assert!(Guard::Mode(LogicMode::GlitchBasic).can_access(&nothing));
    assert!(!Guard::Mode(LogicMode::GlitchAdvanced).can_access(&nothing));
    assert!(Guard::Setting(Switch::Lampless, true).can_access(&nothing));
    assert!(!Guard::Setting(Switch::Lampless, false).can_access(&nothing));
    assert!(Guard::Setting(Switch::SwordlessMode, false).can_access(&nothing));
    assert!(!Guard::Portraits.can_access(&nothing));
    let one = with(&[FillerItem::SageGulley, FillerItem::PendantOfCourage], logic);
    assert!(!Guard::Portraits.can_access(&one));
    let two = with(&[FillerItem::SageGulley, FillerItem::SageRosso], logic);
    assert!(Guard::Portraits.can_access(&two));
    assert!(Guard::Portraits.can_access(&with(&[], Logic::default())));
    assert!(Switch::BellInShop.read(&Logic { bell_in_shop: true, ..Logic::default() }));
    assert!(!Switch::BellInShop.read(&Logic::default()));
}

#[test]
fn run_log_of_the_default_settings() {
    let settings = open_default();
    assert_eq!(
        settings.log(42),
        vec![
            "Seed:                           0000000042",
            "Logic Mode:                     Normal",
            "Dungeon Prizes:                 Not Randomized",
            "Lorule Castle Requirement:      0 Portraits",
            "Super Items:                    Not Shuffled",
            "Maiamai:                        Not Randomized",
            "Minigames:                      Included",
            "Trials:                         Normal",
            "Bow of Light:                   Normal",
            "Weather Vanes:                  Normal",
            "Dark Room Crossing:             Lamp Required",
            "Swords:                         Normal",
            "Chest Size:                     Normal",
        ]
    );
}

#[test]
fn run_log_follows_the_settings() {
    let mut settings = open_default();
    settings.logic.mode = LogicMode::GlitchHell;
    settings.logic.randomize_dungeon_prizes = true;
    settings.logic.lc_requirement = 7;
    settings.logic.super_items = true;
    settings.logic.maiamai_madness = true;
    settings.logic.bell_in_shop = true;
    settings.logic.boots_in_shop = true;
    settings.logic.assured_weapon = true;
    settings.logic.minigames_excluded = true;
    settings.logic.skip_trials = true;
    settings.logic.bow_of_light_in_castle = true;
    settings.logic.weather_vanes_activated = true;
    settings.logic.lampless = true;
    settings.logic.swordless_mode = true;
    settings.options.chest_size_matches_contents = true;
    assert_eq!(
        settings.log(18446744073709551615),
        vec![
            "Seed:                           18446744073709551615",
            "Logic Mode:                     Glitched (Hell) - Did you really mean to choose this?",
            "Dungeon Prizes:                 Randomized",
            "Lorule Castle Requirement:      7 Portraits",
            "Super Items:                    Shuffled",
            "Maiamai:                        Madness",
            "Starting Shop Items:            Bell, Pegasus Boots, Weapon",
            "Minigames:                      Excluded",
            "Trials:                         Skipped",
            "Bow of Light:                   Tournament",
            "Weather Vanes:                  All Activated",
            "Dark Room Crossing:             Lamp Not Required",
            "Swords:                         Swordless Mode - NO SWORDS",
            "Chest Size:                     Matches Contents",
        ]
    );
    settings.logic.bell_in_shop = false;
    settings.logic.boots_in_shop = false;
    settings.logic.assured_weapon = false;
    settings.logic.pouch_in_shop = true;
    assert_eq!(settings.log(1234567890)[0], "Seed:                           1234567890");
    assert_eq!(settings.log(0)[6], "Starting Shop Items:            Pouch");
}

#[test]
fn numbers_in_decimal() {
    let mut text = String::from("n = ");
    push_decimal(&mut text, 0);
    push_decimal(&mut text, 907);
    assert_eq!(text, "n = 0907");
    assert_eq!(pad_decimal(5, 3), "005");
    assert_eq!(pad_decimal(1234, 3), "1234");
    assert_eq!(pad_decimal(0, 0), "0");
    assert_eq!(decimal_len(0), 1);
    assert_eq!(decimal_len(9), 1);
    assert_eq!(decimal_len(10), 2);
    assert_eq!(decimal_len(u64::MAX), 20);
    assert_eq!(join("ab", "cd"), "abcd");
}
