//! The settings of a run: the logic that the guards consult and the checks
//! that the player wants left out of it.

use crate::regions;
use crate::regions::LocationInfo;
use crate::text::{decimal, join, pad_decimal, push_decimal, same_text, zero_padded};
use vstd::string::StringExecFns;
use vstd::prelude::*;

verus! {

/// The seed of a run.
pub type Seed = u64;

/// How much trickery the guards may expect of the player.
#[derive(Clone, Copy, Debug, PartialEq, Eq, Hash, Structural)]
pub enum LogicMode {
    Normal,
    Hard,
    GlitchBasic,
    GlitchAdvanced,
    GlitchHell,
    NoLogic,
}

impl LogicMode {
    /// The modes in rising order of what they allow.
    pub open spec fn rank(self) -> int {
        match self {
            LogicMode::Normal => 0,
            LogicMode::Hard => 1,
            LogicMode::GlitchBasic => 2,
            LogicMode::GlitchAdvanced => 3,
            LogicMode::GlitchHell => 4,
            LogicMode::NoLogic => 5,
        }
    }

    /// Whether this mode allows whatever `other` allows.
    pub fn allows(self, other: LogicMode) -> (r: bool)
        ensures
            r == (self.rank() >= other.rank()),
    {
        self.level() >= other.level()
    }

    fn level(self) -> (r: u8)
        ensures
            r == self.rank(),
    {
        match self {
            LogicMode::Normal => 0,
            LogicMode::Hard => 1,
            LogicMode::GlitchBasic => 2,
            LogicMode::GlitchAdvanced => 3,
            LogicMode::GlitchHell => 4,
            LogicMode::NoLogic => 5,
        }
    }
}

/// The settings that the guards and the placement consult.
#[derive(Clone, Copy, Debug, PartialEq, Eq, Hash, Structural)]
pub struct Logic {
    pub mode: LogicMode,
    pub randomize_dungeon_prizes: bool,
    pub maiamai_madness: bool,
    pub weather_vanes_activated: bool,
    pub super_items: bool,
    pub skip_trials: bool,
    pub lampless: bool,
    pub swordless_mode: bool,
    pub assured_weapon: bool,
    pub bell_in_shop: bool,
    pub pouch_in_shop: bool,
    pub boots_in_shop: bool,
    pub bow_of_light_in_castle: bool,
    pub minigames_excluded: bool,
    /// The number of portraits that opens the castle, 0 to 7.
    pub lc_requirement: u8,
    pub hint_ghost_price: u16,
}

impl Logic {
    /// Normal logic with every option off.
    pub open spec fn plain() -> Logic {
        Logic {
            mode: LogicMode::Normal,
            randomize_dungeon_prizes: false,
            maiamai_madness: false,
            weather_vanes_activated: false,
            super_items: false,
            skip_trials: false,
            lampless: false,
            swordless_mode: false,
            assured_weapon: false,
            bell_in_shop: false,
            pouch_in_shop: false,
            boots_in_shop: false,
            bow_of_light_in_castle: false,
            minigames_excluded: false,
            lc_requirement: 0,
            hint_ghost_price: 0,
        }
    }
}

impl Default for Logic {
    fn default() -> (r: Logic)
        ensures
            r == Logic::plain(),
    {
        Logic {
            mode: LogicMode::Normal,
            randomize_dungeon_prizes: false,
            maiamai_madness: false,
            weather_vanes_activated: false,
            super_items: false,
            skip_trials: false,
            lampless: false,
            swordless_mode: false,
            assured_weapon: false,
            bell_in_shop: false,
            pouch_in_shop: false,
            boots_in_shop: false,
            bow_of_light_in_castle: false,
            minigames_excluded: false,
            lc_requirement: 0,
            hint_ghost_price: 0,
        }
    }
}

/// Settings that change how the game looks, not where items lie.
#[derive(Clone, Copy, Debug, PartialEq, Eq, Hash, Structural)]
pub struct Options {
    /// Large chests for progression items, small ones for everything else.
    pub chest_size_matches_contents: bool,
    /// Hyrule in its night colours until Lorule is visited.
    pub night_mode: bool,
}

impl Default for Options {
    fn default() -> (r: Options)
        ensures
            !r.chest_size_matches_contents,
            !r.night_mode,
    {
        Options { chest_size_matches_contents: false, night_mode: false }
    }
}

/// A setting for progression items.
#[derive(Clone, Copy, Debug, PartialEq, Eq, Hash, Structural)]
pub enum Progression {
    Unchanged,
    Shuffled,
}

impl Progression {
    pub fn is_shuffled(&self) -> (r: bool)
        ensures
            r == (*self == Progression::Shuffled),
    {
        *self == Progression::Shuffled
    }
}

impl Default for Progression {
    fn default() -> (r: Progression)
        ensures
            r == Progression::Unchanged,
    {
        Progression::Unchanged
    }
}

/// A setting for the castle barrier.
#[derive(Clone, Copy, Debug, PartialEq, Eq, Hash, Structural)]
pub enum Barrier {
    Unchanged,
    Start,
}

impl Barrier {
    pub fn is_start(&self) -> (r: bool)
        ensures
            r == (*self == Barrier::Start),
    {
        *self == Barrier::Start
    }
}

impl Default for Barrier {
    fn default() -> (r: Barrier)
        ensures
            r == Barrier::Unchanged,
    {
        Barrier::Unchanged
    }
}

/// The checks of one world that are left out, region by region: each entry
/// is a region's name and the names of the checks left out in that region.
#[derive(Clone, Debug, Hash)]
pub struct World(pub Vec<(String, Vec<String>)>);

impl World {
    /// Whether some entry for the region names the check.
    pub open spec fn lists(&self, region: Seq<char>, name: Seq<char>) -> bool {
        exists|i: int, j: int|
            0 <= i < self.0@.len() && 0 <= j < self.0@[i].1@.len() && self.0@[i].0@ == region
                && (#[trigger] self.0@[i].1@[j])@ == name
    }

    pub fn is_empty(&self) -> (r: bool)
        ensures
            r == (self.0@.len() == 0),
    {
        self.0.len() == 0
    }

    /// Whether some entry for the region names the check.
    pub fn contains(&self, region: &str, name: &str) -> (r: bool)
        ensures
            r == self.lists(region@, name@),
    {
        let mut i: usize = 0;
        while i < self.0.len()
            invariant
                i <= self.0@.len(),
                forall|a: int, b: int|
                    0 <= a < i && 0 <= b < self.0@[a].1@.len() && self.0@[a].0@ == region@ ==> (
                    #[trigger] self.0@[a].1@[b])@ != name@,
            decreases self.0@.len() - i,
        {
            if same_text(self.0[i].0.as_str(), region) {
                let mut j: usize = 0;
                while j < self.0[i].1.len()
                    invariant
                        i < self.0@.len(),
                        j <= self.0@[i as int].1@.len(),
                        self.0@[i as int].0@ == region@,
                        forall|b: int| 0 <= b < j ==> (#[trigger] self.0@[i as int].1@[b])@ != name@,
                    decreases self.0@[i as int].1@.len() - j,
                {
                    if same_text(self.0[i].1[j].as_str(), name) {
                        return true;
                    }
                    j += 1;
                }
            }
            i += 1;
        }
        false
    }
}

impl Default for World {
    fn default() -> (r: World)
        ensures
            r.0@.len() == 0,
    {
        World(Vec::new())
    }
}

/// The checks that are left out, world by world.
#[derive(Clone, Debug, Hash)]
pub struct Exclude {
    pub hyrule: World,
    pub lorule: World,
    pub dungeons: World,
}

impl Exclude {
    pub fn new() -> (r: Exclude)
        ensures
            r.hyrule.0@.len() == 0,
            r.lorule.0@.len() == 0,
            r.dungeons.0@.len() == 0,
    {
        Exclude { hyrule: World(Vec::new()), lorule: World(Vec::new()), dungeons: World(Vec::new()) }
    }

    pub fn is_empty(&self) -> (r: bool)
        ensures
            r == (self.hyrule.0@.len() == 0 && self.lorule.0@.len() == 0 && self.dungeons.0@.len()
                == 0),
    {
        self.hyrule.is_empty() && self.lorule.is_empty() && self.dungeons.is_empty()
    }
}

impl Default for Exclude {
    fn default() -> (r: Exclude)
        ensures
            r.hyrule.0@.len() == 0,
            r.lorule.0@.len() == 0,
            r.dungeons.0@.len() == 0,
    {
        Exclude::new()
    }
}

/// The names of the checks that the player wants to hold filler, in the
/// order in which they are dealt with.
#[derive(Clone, Debug, Hash)]
pub struct Exclusion(pub Vec<String>);

impl Exclusion {
    /// The names as sequences of characters.
    pub open spec fn names(&self) -> Seq<Seq<char>> {
        Seq::new(self.0@.len(), |i: int| self.0@[i]@)
    }
}

impl Default for Exclusion {
    fn default() -> (r: Exclusion)
        ensures
            r.0@.len() == 0,
    {
        Exclusion(Vec::new())
    }
}

/// Logic and behavior settings.
#[derive(Clone, Debug, Hash)]
pub struct Settings {
    pub dev_mode: bool,
    pub logic: Logic,
    pub options: Options,
    pub exclusions: Exclusion,
    pub exclude: Exclude,
}

/// What the run log says of the logic mode.
pub open spec fn mode_name(mode: LogicMode) -> Seq<char> {
    match mode {
        LogicMode::Normal => "Normal"@,
        LogicMode::Hard => "Hard"@,
        LogicMode::GlitchBasic => "Glitched (Basic)"@,
        LogicMode::GlitchAdvanced => "Glitched (Advanced)"@,
        LogicMode::GlitchHell => "Glitched (Hell) - Did you really mean to choose this?"@,
        LogicMode::NoLogic => "No Logic"@,
    }
}

/// The one text where the switch is on, the other where it is off.
pub open spec fn either(on: bool, yes: Seq<char>, no: Seq<char>) -> Seq<char> {
    if on {
        yes
    } else {
        no
    }
}

/// The texts with ", " between them.
pub open spec fn listing(parts: Seq<Seq<char>>) -> Seq<char>
    decreases parts.len(),
{
    if parts.len() == 0 {
        Seq::empty()
    } else if parts.len() == 1 {
        parts[0]
    } else {
        listing(parts.drop_last()) + ", "@ + parts.last()
    }
}

/// What the settings put in the shop, as the run log names it.
pub open spec fn shop_items(logic: Logic) -> Seq<Seq<char>> {
    (if logic.bell_in_shop {
        seq!["Bell"@]
    } else {
        Seq::<Seq<char>>::empty()
    }) + (if logic.pouch_in_shop {
        seq!["Pouch"@]
    } else {
        Seq::<Seq<char>>::empty()
    }) + (if logic.boots_in_shop {
        seq!["Pegasus Boots"@]
    } else {
        Seq::<Seq<char>>::empty()
    }) + (if logic.assured_weapon {
        seq!["Weapon"@]
    } else {
        Seq::<Seq<char>>::empty()
    })
}

/// The first lines of the run log: the seed in ten digits, the logic mode,
/// and what becomes of the prizes, the castle, the upgraded items and the
/// maiamai.
pub open spec fn first_lines(settings: Settings, seed: Seed) -> Seq<Seq<char>> {
    let logic = settings.logic;
    seq![
        "Seed:                           "@ + zero_padded(seed as nat, 10),
        "Logic Mode:                     "@ + mode_name(logic.mode),
        "Dungeon Prizes:                 "@ + either(
            logic.randomize_dungeon_prizes,
            "Randomized"@,
            "Not Randomized"@,
        ),
        "Lorule Castle Requirement:      "@ + (decimal(logic.lc_requirement as nat) + " Portraits"@),
        "Super Items:                    "@ + either(logic.super_items, "Shuffled"@, "Not Shuffled"@),
        "Maiamai:                        "@ + either(logic.maiamai_madness, "Madness"@, "Not Randomized"@),
    ]
}

/// The line of the run log for the shop, where the settings put something
/// there.
pub open spec fn shop_lines(settings: Settings) -> Seq<Seq<char>> {
    if shop_items(settings.logic).len() > 0 {
        seq!["Starting Shop Items:            "@ + listing(shop_items(settings.logic))]
    } else {
        Seq::<Seq<char>>::empty()
    }
}

/// The last lines of the run log.
pub open spec fn last_lines(settings: Settings) -> Seq<Seq<char>> {
    let logic = settings.logic;
    seq![
        "Minigames:                      "@ + either(logic.minigames_excluded, "Excluded"@, "Included"@),
        "Trials:                         "@ + either(logic.skip_trials, "Skipped"@, "Normal"@),
        "Bow of Light:                   "@ + either(logic.bow_of_light_in_castle, "Tournament"@, "Normal"@),
        "Weather Vanes:                  "@ + either(
            logic.weather_vanes_activated,
            "All Activated"@,
            "Normal"@,
        ),
        "Dark Room Crossing:             "@ + either(logic.lampless, "Lamp Not Required"@, "Lamp Required"@),
        "Swords:                         "@ + either(
            logic.swordless_mode,
            "Swordless Mode - NO SWORDS"@,
            "Normal"@,
        ),
        "Chest Size:                     "@ + either(
            settings.options.chest_size_matches_contents,
            "Matches Contents"@,
            "Normal"@,
        ),
    ]
}

/// The lines that the run log has for the seed and the settings.
pub open spec fn log_lines(settings: Settings, seed: Seed) -> Seq<Seq<char>> {
    first_lines(settings, seed) + shop_lines(settings) + last_lines(settings)
}

/// Whether the lines are the texts.
pub open spec fn shows(lines: Seq<String>, texts: Seq<Seq<char>>) -> bool {
    &&& lines.len() == texts.len()
    &&& forall|i: int| 0 <= i < lines.len() ==> (#[trigger] lines[i])@ == texts[i]
}

/// The one text where the switch is on, the other where it is off.
fn pick(on: bool, yes: &'static str, no: &'static str) -> (r: &'static str)
    ensures
        r@ == either(on, yes@, no@),
{
    if on {
        yes
    } else {
        no
    }
}

/// Adds a line made of a label and a value.
fn push_line(lines: &mut Vec<String>, label: &str, value: &str, Ghost(texts): Ghost<Seq<Seq<char>>>)
    requires
        shows(old(lines)@, texts),
    ensures
        shows(final(lines)@, texts.push(label@ + value@)),
{
    lines.push(join(label, value));
}

impl Settings {
    fn log_first(&self, seed: Seed) -> (lines: Vec<String>)
        ensures
            shows(lines@, first_lines(*self, seed)),
    {
        let logic = &self.logic;
        let mut lines: Vec<String> = Vec::new();
        let ghost mut texts: Seq<Seq<char>> = Seq::empty();
        let value = pad_decimal(seed, 10);
        push_line(&mut lines, "Seed:                           ", value.as_str(), Ghost(texts));
        proof {
            texts = texts.push("Seed:                           "@ + value@);
        }
        let value = match logic.mode {
            LogicMode::Normal => "Normal",
            LogicMode::Hard => "Hard",
            LogicMode::GlitchBasic => "Glitched (Basic)",
            LogicMode::GlitchAdvanced => "Glitched (Advanced)",
            LogicMode::GlitchHell => "Glitched (Hell) - Did you really mean to choose this?",
            LogicMode::NoLogic => "No Logic",
        };
        push_line(&mut lines, "Logic Mode:                     ", value, Ghost(texts));
        proof {
            texts = texts.push("Logic Mode:                     "@ + value@);
        }
        let value = pick(logic.randomize_dungeon_prizes, "Randomized", "Not Randomized");
        push_line(&mut lines, "Dungeon Prizes:                 ", value, Ghost(texts));
        proof {
            texts = texts.push("Dungeon Prizes:                 "@ + value@);
        }
        let mut portraits = String::new();
        push_decimal(&mut portraits, logic.lc_requirement as u64);
        portraits.append(" Portraits");
        assert(portraits@ =~= decimal(logic.lc_requirement as nat) + " Portraits"@);
        push_line(&mut lines, "Lorule Castle Requirement:      ", portraits.as_str(), Ghost(texts));
        proof {
            texts = texts.push("Lorule Castle Requirement:      "@ + portraits@);
        }
        let value = pick(logic.super_items, "Shuffled", "Not Shuffled");
        push_line(&mut lines, "Super Items:                    ", value, Ghost(texts));
        proof {
            texts = texts.push("Super Items:                    "@ + value@);
        }
        let value = pick(logic.maiamai_madness, "Madness", "Not Randomized");
        push_line(&mut lines, "Maiamai:                        ", value, Ghost(texts));
        proof {
            texts = texts.push("Maiamai:                        "@ + value@);
            assert(texts =~= first_lines(*self, seed));
        }
        lines
    }

    fn log_shop(&self) -> (lines: Vec<String>)
        ensures
            shows(lines@, shop_lines(*self)),
    {
        let logic = &self.logic;
        let mut lines: Vec<String> = Vec::new();
        let mut shop: Vec<&'static str> = Vec::new();
        if logic.bell_in_shop {
            shop.push("Bell");
        }
        if logic.pouch_in_shop {
            shop.push("Pouch");
        }
        if logic.boots_in_shop {
            shop.push("Pegasus Boots");
        }
        if logic.assured_weapon {
            shop.push("Weapon");
        }
        let ghost wanted = shop_items(*logic);
        assert(shop@.len() == wanted.len());
        assert(forall|i: int| 0 <= i < shop@.len() ==> (#[trigger] shop@[i])@ == wanted[i]);
        if shop.len() > 0 {
            let mut value = shop[0].to_owned();
            let mut i: usize = 1;
            assert(wanted.subrange(0, 1) =~= seq![wanted[0]]);
            while i < shop.len()
                invariant
                    1 <= i <= shop@.len(),
                    shop@.len() == wanted.len(),
                    forall|k: int| 0 <= k < shop@.len() ==> (#[trigger] shop@[k])@ == wanted[k],
                    value@ == listing(wanted.subrange(0, i as int)),
                decreases shop@.len() - i,
            {
                value.append(", ");
                value.append(shop[i]);
                proof {
                    let more = wanted.subrange(0, i + 1);
                    assert(more.drop_last() =~= wanted.subrange(0, i as int));
                    assert(value@ =~= listing(more));
                }
                i += 1;
            }
            proof {
                assert(wanted.subrange(0, wanted.len() as int) =~= wanted);
            }
            push_line(
                &mut lines,
                "Starting Shop Items:            ",
                value.as_str(),
                Ghost(Seq::<Seq<char>>::empty()),
            );
            assert(Seq::<Seq<char>>::empty().push("Starting Shop Items:            "@ + value@) =~= shop_lines(
                *self,
            ));
        }
        lines
    }

    fn log_last(&self) -> (lines: Vec<String>)
        ensures
            shows(lines@, last_lines(*self)),
    {
        let logic = &self.logic;
        let mut lines: Vec<String> = Vec::new();
        let ghost mut texts: Seq<Seq<char>> = Seq::empty();
        let value = pick(logic.minigames_excluded, "Excluded", "Included");
        push_line(&mut lines, "Minigames:                      ", value, Ghost(texts));
        proof {
            texts = texts.push("Minigames:                      "@ + value@);
        }
        let value = pick(logic.skip_trials, "Skipped", "Normal");
        push_line(&mut lines, "Trials:                         ", value, Ghost(texts));
        proof {
            texts = texts.push("Trials:                         "@ + value@);
        }
        let value = pick(logic.bow_of_light_in_castle, "Tournament", "Normal");
        push_line(&mut lines, "Bow of Light:                   ", value, Ghost(texts));
        proof {
            texts = texts.push("Bow of Light:                   "@ + value@);
        }
        let value = pick(logic.weather_vanes_activated, "All Activated", "Normal");
        push_line(&mut lines, "Weather Vanes:                  ", value, Ghost(texts));
        proof {
            texts = texts.push("Weather Vanes:                  "@ + value@);
        }
        let value = pick(logic.lampless, "Lamp Not Required", "Lamp Required");
        push_line(&mut lines, "Dark Room Crossing:             ", value, Ghost(texts));
        proof {
            texts = texts.push("Dark Room Crossing:             "@ + value@);
        }
        let value = pick(logic.swordless_mode, "Swordless Mode - NO SWORDS", "Normal");
        push_line(&mut lines, "Swords:                         ", value, Ghost(texts));
        proof {
            texts = texts.push("Swords:                         "@ + value@);
        }
        let value = pick(self.options.chest_size_matches_contents, "Matches Contents", "Normal");
        push_line(&mut lines, "Chest Size:                     ", value, Ghost(texts));
        proof {
            texts = texts.push("Chest Size:                     "@ + value@);
            assert(texts =~= last_lines(*self));
        }
        lines
    }

    /// The lines of the run log for the seed and the settings.
    pub fn log(&self, seed: Seed) -> (r: Vec<String>)
        ensures
            shows(r@, log_lines(*self, seed)),
    {
        let mut lines = self.log_first(seed);
        let mut shop = self.log_shop();
        let mut last = self.log_last();
        lines.append(&mut shop);
        lines.append(&mut last);
        lines
    }

    /// The table of the checks left out in one world.
    pub open spec fn table(&self, world: regions::World) -> World {
        match world {
            regions::World::Hyrule => self.exclude.hyrule,
            regions::World::Lorule => self.exclude.lorule,
            regions::World::Dungeons => self.exclude.dungeons,
        }
    }

    /// Whether the check is left out: the table of its world has an entry
    /// for its region that names it.
    pub fn is_excluded(&self, location: &LocationInfo) -> (r: bool)
        ensures
            r == self.table(location.world).lists(location.region@, location.name@),
    {
        let world = match location.world() {
            regions::World::Hyrule => &self.exclude.hyrule,
            regions::World::Lorule => &self.exclude.lorule,
            regions::World::Dungeons => &self.exclude.dungeons,
        };
        world.contains(location.region(), location.name())
    }
}

impl Default for Settings {
    fn default() -> (r: Settings)
        ensures
            !r.dev_mode,
            r.logic == Logic::plain(),
            !r.options.chest_size_matches_contents,
            !r.options.night_mode,
            r.exclusions.0@.len() == 0,
            r.exclude.hyrule.0@.len() == 0,
            r.exclude.lorule.0@.len() == 0,
            r.exclude.dungeons.0@.len() == 0,
    {
        Settings {
            dev_mode: false,
            logic: Logic::default(),
            options: Options::default(),
            exclusions: Exclusion::default(),
            exclude: Exclude::new(),
        }
    }
}

/// The settings with nothing chosen: normal logic, every option off, no
/// check left out.
pub fn open_default() -> (r: Settings)
    ensures
        !r.dev_mode,
        r.logic == Logic::plain(),
        !r.options.chest_size_matches_contents,
        !r.options.night_mode,
        r.exclusions.0@.len() == 0,
        r.exclude.hyrule.0@.len() == 0,
        r.exclude.lorule.0@.len() == 0,
        r.exclude.dungeons.0@.len() == 0,
{
    Settings::default()
}

} // verus!
