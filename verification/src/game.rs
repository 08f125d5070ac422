//! The game's own items, and the item that each placement tag stands for.

use crate::item::{
    FillerItem, FIRST_BIG_KEY, FIRST_COMPASS, FIRST_GOLD_RUPEE, FIRST_HEART_PIECE, FIRST_MAIAMAI,
    FIRST_PURPLE_RUPEE, FIRST_QUEST, FIRST_SILVER_RUPEE, FIRST_SMALL_KEY, FIRST_SWORD, FIRST_TRASH,
};
use vstd::prelude::*;

verus! {

/// An item as the game knows it. Many placement tags stand for the same
/// item of the game.
#[derive(Clone, Copy, Debug, PartialEq, Eq, Hash, Structural)]
pub enum Item {
    Empty,
    KeySmall,
    KeyBoss,
    Compass,
    HeartContainer,
    HeartPiece,
    RupeeG,
    RupeeB,
    RupeeR,
    RupeePurple,
    RupeeSilver,
    RupeeGold,
    ItemBow,
    ItemBowLight,
    ItemBoomerang,
    ItemHookShot,
    ItemBomb,
    ItemFireRod,
    ItemIceRod,
    ItemHammer,
    ItemSandRod,
    ItemTornadeRod,
    ItemBell,
    ItemKandelaar,
    ItemInsectNet,
    ItemBottle,
    ItemStoneBeauty,
    ItemMizukaki,
    ItemSwordLv1,
    RingHekiga,
    PowerGlove,
    ClothesBlue,
    HyruleShield,
    DashBoots,
    Pouch,
    GanbariPowerUp,
    MessageBottle,
    MilkMatured,
    BadgeBee,
    HintGlasses,
    LiverPurple,
    LiverYellow,
    LiverBlue,
    OreYellow,
    OreGreen,
    OreBlue,
    OreRed,
    Maiamai,
    PendantCourage,
    PendantWisdom,
    PendantPower,
    SageGulley,
    SageOren,
    SageSeres,
    SageOsfala,
    SageImpa,
    SageIrene,
    SageRosso,
}

/// The item of the game that a tag outside the numbered runs stands for.
pub open spec fn single_item(item: FillerItem) -> Option<Item> {
    match item {
        FillerItem::Bow01 => Some(Item::ItemBow),
        FillerItem::Boomerang01 => Some(Item::ItemBoomerang),
        FillerItem::Hookshot01 => Some(Item::ItemHookShot),
        FillerItem::Bombs01 => Some(Item::ItemBomb),
        FillerItem::FireRod01 => Some(Item::ItemFireRod),
        FillerItem::IceRod01 => Some(Item::ItemIceRod),
        FillerItem::Hammer01 => Some(Item::ItemHammer),
        FillerItem::SandRod01 => Some(Item::ItemSandRod),
        FillerItem::TornadoRod01 => Some(Item::ItemTornadeRod),
        FillerItem::RaviosBracelet01 | FillerItem::RaviosBracelet02 => Some(Item::RingHekiga),
        FillerItem::Bell => Some(Item::ItemBell),
        FillerItem::StaminaScroll => Some(Item::GanbariPowerUp),
        FillerItem::BowOfLight => Some(Item::ItemBowLight),
        FillerItem::PegasusBoots => Some(Item::DashBoots),
        FillerItem::Flippers => Some(Item::ItemMizukaki),
        FillerItem::HylianShield => Some(Item::HyruleShield),
        FillerItem::PremiumMilk => Some(Item::MilkMatured),
        FillerItem::SmoothGem => Some(Item::ItemStoneBeauty),
        FillerItem::LetterInABottle => Some(Item::MessageBottle),
        FillerItem::Lamp01 | FillerItem::Lamp02 => Some(Item::ItemKandelaar),
        FillerItem::Net01 | FillerItem::Net02 => Some(Item::ItemInsectNet),
        FillerItem::Pouch => Some(Item::Pouch),
        FillerItem::Bottle01
        | FillerItem::Bottle02
        | FillerItem::Bottle03
        | FillerItem::Bottle04
        | FillerItem::Bottle05 => Some(Item::ItemBottle),
        FillerItem::Glove01 | FillerItem::Glove02 => Some(Item::PowerGlove),
        FillerItem::Mail01 | FillerItem::Mail02 => Some(Item::ClothesBlue),
        FillerItem::OreYellow => Some(Item::OreYellow),
        FillerItem::OreGreen => Some(Item::OreGreen),
        FillerItem::OreBlue => Some(Item::OreBlue),
        FillerItem::OreRed => Some(Item::OreRed),
        FillerItem::PendantOfCourage => Some(Item::PendantCourage),
        FillerItem::PendantOfWisdom => Some(Item::PendantWisdom),
        FillerItem::PendantOfPower => Some(Item::PendantPower),
        FillerItem::SageGulley => Some(Item::SageGulley),
        FillerItem::SageOren => Some(Item::SageOren),
        FillerItem::SageSeres => Some(Item::SageSeres),
        FillerItem::SageOsfala => Some(Item::SageOsfala),
        FillerItem::SageImpa => Some(Item::SageImpa),
        FillerItem::SageIrene => Some(Item::SageIrene),
        FillerItem::SageRosso => Some(Item::SageRosso),
        FillerItem::HintGlasses => Some(Item::HintGlasses),
        FillerItem::RupeeGreen => Some(Item::RupeeG),
        FillerItem::RupeeBlue => Some(Item::RupeeB),
        FillerItem::RupeeRed => Some(Item::RupeeR),
        FillerItem::MonsterTail => Some(Item::LiverBlue),
        FillerItem::MonsterHorn => Some(Item::LiverYellow),
        FillerItem::MonsterGuts => Some(Item::LiverPurple),
        FillerItem::BeeBadge => Some(Item::BadgeBee),
        FillerItem::Empty => Some(Item::Empty),
        _ => None,
    }
}

/// The item of the game that a placement tag stands for. The tags that
/// the world fixes at its checks stand for none.
pub open spec fn game_item(item: FillerItem) -> Option<Item> {
    let at = item.position();
    if FIRST_PURPLE_RUPEE <= at < FIRST_SILVER_RUPEE {
        Some(Item::RupeePurple)
    } else if FIRST_SILVER_RUPEE <= at < FIRST_GOLD_RUPEE {
        Some(Item::RupeeSilver)
    } else if FIRST_GOLD_RUPEE <= at < FIRST_MAIAMAI {
        Some(Item::RupeeGold)
    } else if FIRST_MAIAMAI <= at < FIRST_SWORD {
        Some(Item::Maiamai)
    } else if FIRST_SWORD <= at < FIRST_SWORD + 4 {
        Some(Item::ItemSwordLv1)
    } else if FIRST_BIG_KEY <= at < FIRST_SMALL_KEY {
        Some(Item::KeyBoss)
    } else if FIRST_SMALL_KEY <= at < FIRST_COMPASS {
        Some(Item::KeySmall)
    } else if FIRST_COMPASS <= at < FIRST_TRASH {
        Some(Item::Compass)
    } else if FIRST_HEART_PIECE <= at < FIRST_HEART_PIECE + 27 {
        Some(Item::HeartPiece)
    } else if FIRST_HEART_PIECE + 27 <= at < FIRST_HEART_PIECE + 37 {
        Some(Item::HeartContainer)
    } else if at >= FIRST_QUEST {
        None
    } else {
        single_item(item)
    }
}

/// The item of the game that a placement tag stands for, `None` where the
/// game has none for it.
pub fn convert(item: FillerItem) -> (r: Option<Item>)
    ensures
        r == game_item(item),
{
    let at: usize = item.index();
    if FIRST_PURPLE_RUPEE <= at && at < FIRST_SILVER_RUPEE {
        Some(Item::RupeePurple)
    } else if FIRST_SILVER_RUPEE <= at && at < FIRST_GOLD_RUPEE {
        Some(Item::RupeeSilver)
    } else if FIRST_GOLD_RUPEE <= at && at < FIRST_MAIAMAI {
        Some(Item::RupeeGold)
    } else if FIRST_MAIAMAI <= at && at < FIRST_SWORD {
        Some(Item::Maiamai)
    } else if FIRST_SWORD <= at && at < FIRST_SWORD + 4 {
        Some(Item::ItemSwordLv1)
    } else if FIRST_BIG_KEY <= at && at < FIRST_SMALL_KEY {
        Some(Item::KeyBoss)
    } else if FIRST_SMALL_KEY <= at && at < FIRST_COMPASS {
        Some(Item::KeySmall)
    } else if FIRST_COMPASS <= at && at < FIRST_TRASH {
        Some(Item::Compass)
    } else if FIRST_HEART_PIECE <= at && at < FIRST_HEART_PIECE + 27 {
        Some(Item::HeartPiece)
    } else if FIRST_HEART_PIECE + 27 <= at && at < FIRST_HEART_PIECE + 37 {
        Some(Item::HeartContainer)
    } else if at >= FIRST_QUEST {
        None
    } else {
        match item {
            FillerItem::Bow01 => Some(Item::ItemBow),
            FillerItem::Boomerang01 => Some(Item::ItemBoomerang),
            FillerItem::Hookshot01 => Some(Item::ItemHookShot),
            FillerItem::Bombs01 => Some(Item::ItemBomb),
            FillerItem::FireRod01 => Some(Item::ItemFireRod),
            FillerItem::IceRod01 => Some(Item::ItemIceRod),
            FillerItem::Hammer01 => Some(Item::ItemHammer),
            FillerItem::SandRod01 => Some(Item::ItemSandRod),
            FillerItem::TornadoRod01 => Some(Item::ItemTornadeRod),
            FillerItem::RaviosBracelet01 | FillerItem::RaviosBracelet02 => Some(Item::RingHekiga),
            FillerItem::Bell => Some(Item::ItemBell),
            FillerItem::StaminaScroll => Some(Item::GanbariPowerUp),
            FillerItem::BowOfLight => Some(Item::ItemBowLight),
            FillerItem::PegasusBoots => Some(Item::DashBoots),
            FillerItem::Flippers => Some(Item::ItemMizukaki),
            FillerItem::HylianShield => Some(Item::HyruleShield),
            FillerItem::PremiumMilk => Some(Item::MilkMatured),
            FillerItem::SmoothGem => Some(Item::ItemStoneBeauty),
            FillerItem::LetterInABottle => Some(Item::MessageBottle),
            FillerItem::Lamp01 | FillerItem::Lamp02 => Some(Item::ItemKandelaar),
            FillerItem::Net01 | FillerItem::Net02 => Some(Item::ItemInsectNet),
            FillerItem::Pouch => Some(Item::Pouch),
            FillerItem::Bottle01
            | FillerItem::Bottle02
            | FillerItem::Bottle03
            | FillerItem::Bottle04
            | FillerItem::Bottle05 => Some(Item::ItemBottle),
            FillerItem::Glove01 | FillerItem::Glove02 => Some(Item::PowerGlove),
            FillerItem::Mail01 | FillerItem::Mail02 => Some(Item::ClothesBlue),
            FillerItem::OreYellow => Some(Item::OreYellow),
            FillerItem::OreGreen => Some(Item::OreGreen),
            FillerItem::OreBlue => Some(Item::OreBlue),
            FillerItem::OreRed => Some(Item::OreRed),
            FillerItem::PendantOfCourage => Some(Item::PendantCourage),
            FillerItem::PendantOfWisdom => Some(Item::PendantWisdom),
            FillerItem::PendantOfPower => Some(Item::PendantPower),
            FillerItem::SageGulley => Some(Item::SageGulley),
            FillerItem::SageOren => Some(Item::SageOren),
            FillerItem::SageSeres => Some(Item::SageSeres),
            FillerItem::SageOsfala => Some(Item::SageOsfala),
            FillerItem::SageImpa => Some(Item::SageImpa),
            FillerItem::SageIrene => Some(Item::SageIrene),
            FillerItem::SageRosso => Some(Item::SageRosso),
            FillerItem::HintGlasses => Some(Item::HintGlasses),
            FillerItem::RupeeGreen => Some(Item::RupeeG),
            FillerItem::RupeeBlue => Some(Item::RupeeB),
            FillerItem::RupeeRed => Some(Item::RupeeR),
            FillerItem::MonsterTail => Some(Item::LiverBlue),
            FillerItem::MonsterHorn => Some(Item::LiverYellow),
            FillerItem::MonsterGuts => Some(Item::LiverPurple),
            FillerItem::BeeBadge => Some(Item::BadgeBee),
            FillerItem::Empty => Some(Item::Empty),
            _ => None,
        }
    }
}

/// Every tag of the two pools stands for an item of the game.
pub proof fn lemma_pool_items_convert(item: FillerItem)
    requires
        item.position() < FIRST_QUEST,
    ensures
        game_item(item) is Some,
{
}

} // verus!
