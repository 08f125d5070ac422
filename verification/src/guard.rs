//! Guards: the conditions under which a check or a path is open.
//!
//! A guard is a value. What it asks of the inventory only grows easier as the
//! inventory grows: no guard asks that an item be missing.

use crate::item::{FillerItem, FIRST_PRIZE};
use crate::progress::{held_among, lemma_held_among_monotone, Progress};
use crate::settings::{Logic, LogicMode};
use vstd::prelude::*;

verus! {

/// A switch of the logic settings.
#[derive(Clone, Copy, Debug, PartialEq, Eq, Hash, Structural)]
pub enum Switch {
    RandomizeDungeonPrizes,
    MaiamaiMadness,
    WeatherVanesActivated,
    SuperItems,
    SkipTrials,
    Lampless,
    SwordlessMode,
    AssuredWeapon,
    BellInShop,
    PouchInShop,
    BootsInShop,
    BowOfLightInCastle,
    MinigamesExcluded,
}

impl Switch {
    /// The state of the switch in the settings.
    pub open spec fn of(self, logic: Logic) -> bool {
        match self {
            Switch::RandomizeDungeonPrizes => logic.randomize_dungeon_prizes,
            Switch::MaiamaiMadness => logic.maiamai_madness,
            Switch::WeatherVanesActivated => logic.weather_vanes_activated,
            Switch::SuperItems => logic.super_items,
            Switch::SkipTrials => logic.skip_trials,
            Switch::Lampless => logic.lampless,
            Switch::SwordlessMode => logic.swordless_mode,
            Switch::AssuredWeapon => logic.assured_weapon,
            Switch::BellInShop => logic.bell_in_shop,
            Switch::PouchInShop => logic.pouch_in_shop,
            Switch::BootsInShop => logic.boots_in_shop,
            Switch::BowOfLightInCastle => logic.bow_of_light_in_castle,
            Switch::MinigamesExcluded => logic.minigames_excluded,
        }
    }

    /// The state of the switch in the settings.
    pub fn read(self, logic: &Logic) -> (r: bool)
        ensures
            r == self.of(*logic),
    {
        match self {
            Switch::RandomizeDungeonPrizes => logic.randomize_dungeon_prizes,
            Switch::MaiamaiMadness => logic.maiamai_madness,
            Switch::WeatherVanesActivated => logic.weather_vanes_activated,
            Switch::SuperItems => logic.super_items,
            Switch::SkipTrials => logic.skip_trials,
            Switch::Lampless => logic.lampless,
            Switch::SwordlessMode => logic.swordless_mode,
            Switch::AssuredWeapon => logic.assured_weapon,
            Switch::BellInShop => logic.bell_in_shop,
            Switch::PouchInShop => logic.pouch_in_shop,
            Switch::BootsInShop => logic.boots_in_shop,
            Switch::BowOfLightInCastle => logic.bow_of_light_in_castle,
            Switch::MinigamesExcluded => logic.minigames_excluded,
        }
    }
}

/// The seven sages, whose portraits open the castle.
pub open spec fn sages() -> Seq<FillerItem> {
    Seq::new(7, |i: int| FillerItem::at(FIRST_PRIZE + 3 + i))
}

/// The condition under which a check or a path is open.
pub enum Guard {
    /// Open to everyone.
    Open,
    /// Open to no one.
    Shut,
    /// Open to who holds the item.
    Has(FillerItem),
    /// Open to who holds at least so many entries of the list.
    AtLeast(usize, Vec<FillerItem>),
    /// Open where the logic mode allows what the given mode allows.
    Mode(LogicMode),
    /// Open where the switch is in the given state.
    Setting(Switch, bool),
    /// Open to who holds as many portraits as the settings ask for the castle.
    Portraits,
    /// Open where every one of the guards is.
    All(Vec<Guard>),
    /// Open where one of the guards is.
    Any(Vec<Guard>),
}

impl Guard {
    /// Whether the guard is open to an inventory under the settings.
    pub open spec fn accepts(self, held: Set<FillerItem>, logic: Logic) -> bool
        decreases self,
    {
        match self {
            Guard::Open => true,
            Guard::Shut => false,
            Guard::Has(item) => held.contains(item),
            Guard::AtLeast(count, list) => held_among(held, list@) >= count,
            Guard::Mode(mode) => logic.mode.rank() >= mode.rank(),
            Guard::Setting(switch, state) => switch.of(logic) == state,
            Guard::Portraits => held_among(held, sages()) >= logic.lc_requirement,
            Guard::All(guards) => forall|i: int|
                0 <= i < guards@.len() ==> (#[trigger] guards@[i]).accepts(held, logic),
            Guard::Any(guards) => exists|i: int|
                0 <= i < guards@.len() && (#[trigger] guards@[i]).accepts(held, logic),
        }
    }

    /// A guard that is open to an inventory is open to every larger one.
    pub proof fn lemma_monotone(self, a: Set<FillerItem>, b: Set<FillerItem>, logic: Logic)
        requires
            a.subset_of(b),
            self.accepts(a, logic),
        ensures
            self.accepts(b, logic),
        decreases self,
    {
        match self {
            Guard::AtLeast(count, list) => {
                lemma_held_among_monotone(a, b, list@);
            },
            Guard::Portraits => {
                lemma_held_among_monotone(a, b, sages());
            },
            Guard::All(guards) => {
                assert forall|i: int| 0 <= i < guards@.len() implies (#[trigger] guards@[i]).accepts(
                    b,
                    logic,
                ) by {
                    guards@[i].lemma_monotone(a, b, logic);
                }
            },
            Guard::Any(guards) => {
                let i = choose|i: int|
                    0 <= i < guards@.len() && (#[trigger] guards@[i]).accepts(a, logic);
                guards@[i].lemma_monotone(a, b, logic);
            },
            _ => {},
        }
    }

    /// Whether the guard is open to the inventory.
    #[verifier::loop_isolation(false)]
    pub fn can_access(&self, progress: &Progress) -> (r: bool)
        requires
            progress.wf(),
        ensures
            r == self.accepts(progress@, progress.logic()),
        decreases self,
    {
        match self {
            Guard::Open => true,
            Guard::Shut => false,
            Guard::Has(item) => progress.has(*item),
            Guard::AtLeast(count, list) => progress.count_held(list) >= *count,
            Guard::Mode(mode) => progress.settings().mode.allows(*mode),
            Guard::Setting(switch, state) => switch.read(&progress.settings()) == *state,
            Guard::Portraits => {
                let mut list: Vec<FillerItem> = Vec::new();
                let mut i: usize = 0;
                while i < 7
                    invariant
                        i <= 7,
                        list@ == Seq::new(i as nat, |k: int| FillerItem::at(FIRST_PRIZE + 3 + k)),
                    decreases 7 - i,
                {
                    let item = FillerItem::from_index(FIRST_PRIZE + 3 + i).unwrap();
                    list.push(item);
                    i += 1;
                    assert(list@ =~= Seq::new(i as nat, |k: int| FillerItem::at(FIRST_PRIZE + 3 + k)));
                }
                progress.count_held(&list) >= progress.settings().lc_requirement as usize
            },
            Guard::All(guards) => {
                let mut i: usize = 0;
                while i < guards.len()
                    invariant
                        progress.wf(),
                        i <= guards@.len(),
                        forall|k: int|
                            0 <= k < i ==> (#[trigger] guards@[k]).accepts(
                                progress@,
                                progress.logic(),
                            ),
                    decreases guards@.len() - i,
                {
                    if !guards[i].can_access(progress) {
                        return false;
                    }
                    i += 1;
                }
                true
            },
            Guard::Any(guards) => {
                let mut i: usize = 0;
                while i < guards.len()
                    invariant
                        progress.wf(),
                        i <= guards@.len(),
                        forall|k: int|
                            0 <= k < i ==> !(#[trigger] guards@[k]).accepts(
                                progress@,
                                progress.logic(),
                            ),
                    decreases guards@.len() - i,
                {
                    if guards[i].can_access(progress) {
                        return true;
                    }
                    i += 1;
                }
                false
            },
        }
    }
}

} // verus!
