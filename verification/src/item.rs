//! The catalogue of placement tags.
//!
//! Every copy of an item that the game hands out is a tag of its own, so that
//! each copy is placed exactly once. The tags are declared in catalogue order:
//! the pools are runs of consecutive tags.

use vstd::prelude::*;

verus! {

/// A placement tag: one copy of one item.
#[derive(Clone, Copy, Debug, PartialEq, Eq, Hash, Structural)]
pub enum FillerItem {
    // Tools and other single items that open paths.
    Bow01,
    Boomerang01,
    Hookshot01,
    Bombs01,
    FireRod01,
    IceRod01,
    Hammer01,
    SandRod01,
    TornadoRod01,
    RaviosBracelet01,
    RaviosBracelet02,
    Bell,
    StaminaScroll,
    BowOfLight,
    PegasusBoots,
    Flippers,
    HylianShield,
    PremiumMilk,
    SmoothGem,
    LetterInABottle,
    Lamp01,
    Net01,
    Pouch,
    // Bottles.
    Bottle01,
    Bottle02,
    Bottle03,
    Bottle04,
    Bottle05,
    // Gloves.
    Glove01,
    Glove02,
    // Mails.
    Mail01,
    Mail02,
    // Master ore.
    OreYellow,
    OreGreen,
    OreBlue,
    OreRed,
    // Purple rupees.
    RupeePurple01,
    RupeePurple02,
    RupeePurple03,
    RupeePurple04,
    RupeePurple05,
    RupeePurple06,
    RupeePurple07,
    RupeePurple08,
    RupeePurple09,
    RupeePurple10,
    RupeePurple11,
    RupeePurple12,
    RupeePurple13,
    RupeePurple14,
    RupeePurple15,
    RupeePurple16,
    RupeePurple17,
    RupeePurple18,
    // Silver rupees.
    RupeeSilver01,
    RupeeSilver02,
    RupeeSilver03,
    RupeeSilver04,
    RupeeSilver05,
    RupeeSilver06,
    RupeeSilver07,
    RupeeSilver08,
    RupeeSilver09,
    RupeeSilver10,
    RupeeSilver11,
    RupeeSilver12,
    RupeeSilver13,
    RupeeSilver14,
    RupeeSilver15,
    RupeeSilver16,
    RupeeSilver17,
    RupeeSilver18,
    RupeeSilver19,
    RupeeSilver20,
    RupeeSilver21,
    RupeeSilver22,
    RupeeSilver23,
    RupeeSilver24,
    RupeeSilver25,
    RupeeSilver26,
    RupeeSilver27,
    RupeeSilver28,
    RupeeSilver29,
    RupeeSilver30,
    RupeeSilver31,
    RupeeSilver32,
    RupeeSilver33,
    RupeeSilver34,
    RupeeSilver35,
    RupeeSilver36,
    RupeeSilver37,
    RupeeSilver38,
    RupeeSilver39,
    RupeeSilver40,
    // Gold rupees.
    RupeeGold01,
    RupeeGold02,
    RupeeGold03,
    RupeeGold04,
    RupeeGold05,
    RupeeGold06,
    RupeeGold07,
    RupeeGold08,
    RupeeGold09,
    RupeeGold10,
    // Maiamai.
    Maiamai001,
    Maiamai002,
    Maiamai003,
    Maiamai004,
    Maiamai005,
    Maiamai006,
    Maiamai007,
    Maiamai008,
    Maiamai009,
    Maiamai010,
    Maiamai011,
    Maiamai012,
    Maiamai013,
    Maiamai014,
    Maiamai015,
    Maiamai016,
    Maiamai017,
    Maiamai018,
    Maiamai019,
    Maiamai020,
    Maiamai021,
    Maiamai022,
    Maiamai023,
    Maiamai024,
    Maiamai025,
    Maiamai026,
    Maiamai027,
    Maiamai028,
    Maiamai029,
    Maiamai030,
    Maiamai031,
    Maiamai032,
    Maiamai033,
    Maiamai034,
    Maiamai035,
    Maiamai036,
    Maiamai037,
    Maiamai038,
    Maiamai039,
    Maiamai040,
    Maiamai041,
    Maiamai042,
    Maiamai043,
    Maiamai044,
    Maiamai045,
    Maiamai046,
    Maiamai047,
    Maiamai048,
    Maiamai049,
    Maiamai050,
    Maiamai051,
    Maiamai052,
    Maiamai053,
    Maiamai054,
    Maiamai055,
    Maiamai056,
    Maiamai057,
    Maiamai058,
    Maiamai059,
    Maiamai060,
    Maiamai061,
    Maiamai062,
    Maiamai063,
    Maiamai064,
    Maiamai065,
    Maiamai066,
    Maiamai067,
    Maiamai068,
    Maiamai069,
    Maiamai070,
    Maiamai071,
    Maiamai072,
    Maiamai073,
    Maiamai074,
    Maiamai075,
    Maiamai076,
    Maiamai077,
    Maiamai078,
    Maiamai079,
    Maiamai080,
    Maiamai081,
    Maiamai082,
    Maiamai083,
    Maiamai084,
    Maiamai085,
    Maiamai086,
    Maiamai087,
    Maiamai088,
    Maiamai089,
    Maiamai090,
    Maiamai091,
    Maiamai092,
    Maiamai093,
    Maiamai094,
    Maiamai095,
    Maiamai096,
    Maiamai097,
    Maiamai098,
    Maiamai099,
    Maiamai100,
    // Swords.
    Sword01,
    Sword02,
    Sword03,
    Sword04,
    // Upgraded lamp and net.
    Lamp02,
    Net02,
    // Dungeon prizes.
    PendantOfCourage,
    PendantOfWisdom,
    PendantOfPower,
    SageGulley,
    SageOren,
    SageSeres,
    SageOsfala,
    SageImpa,
    SageIrene,
    SageRosso,
    // Big keys.
    EasternKeyBig,
    GalesKeyBig,
    HeraKeyBig,
    DarkKeyBig,
    SwampKeyBig,
    SkullKeyBig,
    ThievesKeyBig,
    IceKeyBig,
    DesertKeyBig,
    TurtleKeyBig,
    // Small keys.
    HyruleSanctuaryKey,
    LoruleSanctuaryKey,
    EasternKeySmall01,
    EasternKeySmall02,
    GalesKeySmall01,
    GalesKeySmall02,
    GalesKeySmall03,
    GalesKeySmall04,
    HeraKeySmall01,
    HeraKeySmall02,
    DarkKeySmall01,
    DarkKeySmall02,
    DarkKeySmall03,
    DarkKeySmall04,
    SwampKeySmall01,
    SwampKeySmall02,
    SwampKeySmall03,
    SwampKeySmall04,
    SkullKeySmall01,
    SkullKeySmall02,
    SkullKeySmall03,
    ThievesKeySmall,
    IceKeySmall01,
    IceKeySmall02,
    IceKeySmall03,
    DesertKeySmall01,
    DesertKeySmall02,
    DesertKeySmall03,
    DesertKeySmall04,
    DesertKeySmall05,
    TurtleKeySmall01,
    TurtleKeySmall02,
    TurtleKeySmall03,
    LoruleCastleKeySmall01,
    LoruleCastleKeySmall02,
    LoruleCastleKeySmall03,
    LoruleCastleKeySmall04,
    LoruleCastleKeySmall05,
    // Compasses.
    EasternCompass,
    GalesCompass,
    HeraCompass,
    DarkCompass,
    SwampCompass,
    SkullCompass,
    ThievesCompass,
    IceCompass,
    DesertCompass,
    TurtleCompass,
    LoruleCastleCompass,
    // Filler.
    HintGlasses,
    RupeeGreen,
    RupeeBlue,
    RupeeRed,
    MonsterTail,
    MonsterHorn,
    MonsterGuts,
    // Heart pieces.
    HeartPiece01,
    HeartPiece02,
    HeartPiece03,
    HeartPiece04,
    HeartPiece05,
    HeartPiece06,
    HeartPiece07,
    HeartPiece08,
    HeartPiece09,
    HeartPiece10,
    HeartPiece11,
    HeartPiece12,
    HeartPiece13,
    HeartPiece14,
    HeartPiece15,
    HeartPiece16,
    HeartPiece17,
    HeartPiece18,
    HeartPiece19,
    HeartPiece20,
    HeartPiece21,
    HeartPiece22,
    HeartPiece23,
    HeartPiece24,
    HeartPiece25,
    HeartPiece26,
    HeartPiece27,
    // Heart containers.
    HeartContainer01,
    HeartContainer02,
    HeartContainer03,
    HeartContainer04,
    HeartContainer05,
    HeartContainer06,
    HeartContainer07,
    HeartContainer08,
    HeartContainer09,
    HeartContainer10,
    // More filler.
    BeeBadge,
    Empty,
    // Goods and events that stay where the world declares them.
    ScootFruit,
    FoulFruit,
    Shield,
    GoldBee,
    OpenSanctuaryDoors,
    ShadyGuyTrigger,
    BigBombFlower,
    StylishWomansHouseOpen,
    WomanRoofMaiamai,
    SkullEyeRight,
    SkullEyeLeft,
    AccessPotionShop,
    AccessMilkBar,
    AccessHyruleBlacksmith,
    AccessLoruleCastleField,
    Yuga,
    Triforce,
}

/// The number of tags in the catalogue.
pub const ITEM_COUNT: usize = 342;

impl FillerItem {
    /// The position of the tag in the catalogue.
    pub open spec fn position(self) -> int {
        match self {
            FillerItem::Bow01 => 0,
            FillerItem::Boomerang01 => 1,
            FillerItem::Hookshot01 => 2,
            FillerItem::Bombs01 => 3,
            FillerItem::FireRod01 => 4,
            FillerItem::IceRod01 => 5,
            FillerItem::Hammer01 => 6,
            FillerItem::SandRod01 => 7,
            FillerItem::TornadoRod01 => 8,
            FillerItem::RaviosBracelet01 => 9,
            FillerItem::RaviosBracelet02 => 10,
            FillerItem::Bell => 11,
            FillerItem::StaminaScroll => 12,
            FillerItem::BowOfLight => 13,
            FillerItem::PegasusBoots => 14,
            FillerItem::Flippers => 15,
            FillerItem::HylianShield => 16,
            FillerItem::PremiumMilk => 17,
            FillerItem::SmoothGem => 18,
            FillerItem::LetterInABottle => 19,
            FillerItem::Lamp01 => 20,
            FillerItem::Net01 => 21,
            FillerItem::Pouch => 22,
            FillerItem::Bottle01 => 23,
            FillerItem::Bottle02 => 24,
            FillerItem::Bottle03 => 25,
            FillerItem::Bottle04 => 26,
            FillerItem::Bottle05 => 27,
            FillerItem::Glove01 => 28,
            FillerItem::Glove02 => 29,
            FillerItem::Mail01 => 30,
            FillerItem::Mail02 => 31,
            FillerItem::OreYellow => 32,
            FillerItem::OreGreen => 33,
            FillerItem::OreBlue => 34,
            FillerItem::OreRed => 35,
            FillerItem::RupeePurple01 => 36,
            FillerItem::RupeePurple02 => 37,
            FillerItem::RupeePurple03 => 38,
            FillerItem::RupeePurple04 => 39,
            FillerItem::RupeePurple05 => 40,
            FillerItem::RupeePurple06 => 41,
            FillerItem::RupeePurple07 => 42,
            FillerItem::RupeePurple08 => 43,
            FillerItem::RupeePurple09 => 44,
            FillerItem::RupeePurple10 => 45,
            FillerItem::RupeePurple11 => 46,
            FillerItem::RupeePurple12 => 47,
            FillerItem::RupeePurple13 => 48,
            FillerItem::RupeePurple14 => 49,
            FillerItem::RupeePurple15 => 50,
            FillerItem::RupeePurple16 => 51,
            FillerItem::RupeePurple17 => 52,
            FillerItem::RupeePurple18 => 53,
            FillerItem::RupeeSilver01 => 54,
            FillerItem::RupeeSilver02 => 55,
            FillerItem::RupeeSilver03 => 56,
            FillerItem::RupeeSilver04 => 57,
            FillerItem::RupeeSilver05 => 58,
            FillerItem::RupeeSilver06 => 59,
            FillerItem::RupeeSilver07 => 60,
            FillerItem::RupeeSilver08 => 61,
            FillerItem::RupeeSilver09 => 62,
            FillerItem::RupeeSilver10 => 63,
            FillerItem::RupeeSilver11 => 64,
            FillerItem::RupeeSilver12 => 65,
            FillerItem::RupeeSilver13 => 66,
            FillerItem::RupeeSilver14 => 67,
            FillerItem::RupeeSilver15 => 68,
            FillerItem::RupeeSilver16 => 69,
            FillerItem::RupeeSilver17 => 70,
            FillerItem::RupeeSilver18 => 71,
            FillerItem::RupeeSilver19 => 72,
            FillerItem::RupeeSilver20 => 73,
            FillerItem::RupeeSilver21 => 74,
            FillerItem::RupeeSilver22 => 75,
            FillerItem::RupeeSilver23 => 76,
            FillerItem::RupeeSilver24 => 77,
            FillerItem::RupeeSilver25 => 78,
            FillerItem::RupeeSilver26 => 79,
            FillerItem::RupeeSilver27 => 80,
            FillerItem::RupeeSilver28 => 81,
            FillerItem::RupeeSilver29 => 82,
            FillerItem::RupeeSilver30 => 83,
            FillerItem::RupeeSilver31 => 84,
            FillerItem::RupeeSilver32 => 85,
            FillerItem::RupeeSilver33 => 86,
            FillerItem::RupeeSilver34 => 87,
            FillerItem::RupeeSilver35 => 88,
            FillerItem::RupeeSilver36 => 89,
            FillerItem::RupeeSilver37 => 90,
            FillerItem::RupeeSilver38 => 91,
            FillerItem::RupeeSilver39 => 92,
            FillerItem::RupeeSilver40 => 93,
            FillerItem::RupeeGold01 => 94,
            FillerItem::RupeeGold02 => 95,
            FillerItem::RupeeGold03 => 96,
            FillerItem::RupeeGold04 => 97,
            FillerItem::RupeeGold05 => 98,
            FillerItem::RupeeGold06 => 99,
            FillerItem::RupeeGold07 => 100,
            FillerItem::RupeeGold08 => 101,
            FillerItem::RupeeGold09 => 102,
            FillerItem::RupeeGold10 => 103,
            FillerItem::Maiamai001 => 104,
            FillerItem::Maiamai002 => 105,
            FillerItem::Maiamai003 => 106,
            FillerItem::Maiamai004 => 107,
            FillerItem::Maiamai005 => 108,
            FillerItem::Maiamai006 => 109,
            FillerItem::Maiamai007 => 110,
            FillerItem::Maiamai008 => 111,
            FillerItem::Maiamai009 => 112,
            FillerItem::Maiamai010 => 113,
            FillerItem::Maiamai011 => 114,
            FillerItem::Maiamai012 => 115,
            FillerItem::Maiamai013 => 116,
            FillerItem::Maiamai014 => 117,
            FillerItem::Maiamai015 => 118,
            FillerItem::Maiamai016 => 119,
            FillerItem::Maiamai017 => 120,
            FillerItem::Maiamai018 => 121,
            FillerItem::Maiamai019 => 122,
            FillerItem::Maiamai020 => 123,
            FillerItem::Maiamai021 => 124,
            FillerItem::Maiamai022 => 125,
            FillerItem::Maiamai023 => 126,
            FillerItem::Maiamai024 => 127,
            FillerItem::Maiamai025 => 128,
            FillerItem::Maiamai026 => 129,
            FillerItem::Maiamai027 => 130,
            FillerItem::Maiamai028 => 131,
            FillerItem::Maiamai029 => 132,
            FillerItem::Maiamai030 => 133,
            FillerItem::Maiamai031 => 134,
            FillerItem::Maiamai032 => 135,
            FillerItem::Maiamai033 => 136,
            FillerItem::Maiamai034 => 137,
            FillerItem::Maiamai035 => 138,
            FillerItem::Maiamai036 => 139,
            FillerItem::Maiamai037 => 140,
            FillerItem::Maiamai038 => 141,
            FillerItem::Maiamai039 => 142,
            FillerItem::Maiamai040 => 143,
            FillerItem::Maiamai041 => 144,
            FillerItem::Maiamai042 => 145,
            FillerItem::Maiamai043 => 146,
            FillerItem::Maiamai044 => 147,
            FillerItem::Maiamai045 => 148,
            FillerItem::Maiamai046 => 149,
            FillerItem::Maiamai047 => 150,
            FillerItem::Maiamai048 => 151,
            FillerItem::Maiamai049 => 152,
            FillerItem::Maiamai050 => 153,
            FillerItem::Maiamai051 => 154,
            FillerItem::Maiamai052 => 155,
            FillerItem::Maiamai053 => 156,
            FillerItem::Maiamai054 => 157,
            FillerItem::Maiamai055 => 158,
            FillerItem::Maiamai056 => 159,
            FillerItem::Maiamai057 => 160,
            FillerItem::Maiamai058 => 161,
            FillerItem::Maiamai059 => 162,
            FillerItem::Maiamai060 => 163,
            FillerItem::Maiamai061 => 164,
            FillerItem::Maiamai062 => 165,
            FillerItem::Maiamai063 => 166,
            FillerItem::Maiamai064 => 167,
            FillerItem::Maiamai065 => 168,
            FillerItem::Maiamai066 => 169,
            FillerItem::Maiamai067 => 170,
            FillerItem::Maiamai068 => 171,
            FillerItem::Maiamai069 => 172,
            FillerItem::Maiamai070 => 173,
            FillerItem::Maiamai071 => 174,
            FillerItem::Maiamai072 => 175,
            FillerItem::Maiamai073 => 176,
            FillerItem::Maiamai074 => 177,
            FillerItem::Maiamai075 => 178,
            FillerItem::Maiamai076 => 179,
            FillerItem::Maiamai077 => 180,
            FillerItem::Maiamai078 => 181,
            FillerItem::Maiamai079 => 182,
            FillerItem::Maiamai080 => 183,
            FillerItem::Maiamai081 => 184,
            FillerItem::Maiamai082 => 185,
            FillerItem::Maiamai083 => 186,
            FillerItem::Maiamai084 => 187,
            FillerItem::Maiamai085 => 188,
            FillerItem::Maiamai086 => 189,
            FillerItem::Maiamai087 => 190,
            FillerItem::Maiamai088 => 191,
            FillerItem::Maiamai089 => 192,
            FillerItem::Maiamai090 => 193,
            FillerItem::Maiamai091 => 194,
            FillerItem::Maiamai092 => 195,
            FillerItem::Maiamai093 => 196,
            FillerItem::Maiamai094 => 197,
            FillerItem::Maiamai095 => 198,
            FillerItem::Maiamai096 => 199,
            FillerItem::Maiamai097 => 200,
            FillerItem::Maiamai098 => 201,
            FillerItem::Maiamai099 => 202,
            FillerItem::Maiamai100 => 203,
            FillerItem::Sword01 => 204,
            FillerItem::Sword02 => 205,
            FillerItem::Sword03 => 206,
            FillerItem::Sword04 => 207,
            FillerItem::Lamp02 => 208,
            FillerItem::Net02 => 209,
            FillerItem::PendantOfCourage => 210,
            FillerItem::PendantOfWisdom => 211,
            FillerItem::PendantOfPower => 212,
            FillerItem::SageGulley => 213,
            FillerItem::SageOren => 214,
            FillerItem::SageSeres => 215,
            FillerItem::SageOsfala => 216,
            FillerItem::SageImpa => 217,
            FillerItem::SageIrene => 218,
            FillerItem::SageRosso => 219,
            FillerItem::EasternKeyBig => 220,
            FillerItem::GalesKeyBig => 221,
            FillerItem::HeraKeyBig => 222,
            FillerItem::DarkKeyBig => 223,
            FillerItem::SwampKeyBig => 224,
            FillerItem::SkullKeyBig => 225,
            FillerItem::ThievesKeyBig => 226,
            FillerItem::IceKeyBig => 227,
            FillerItem::DesertKeyBig => 228,
            FillerItem::TurtleKeyBig => 229,
            FillerItem::HyruleSanctuaryKey => 230,
            FillerItem::LoruleSanctuaryKey => 231,
            FillerItem::EasternKeySmall01 => 232,
            FillerItem::EasternKeySmall02 => 233,
            FillerItem::GalesKeySmall01 => 234,
            FillerItem::GalesKeySmall02 => 235,
            FillerItem::GalesKeySmall03 => 236,
            FillerItem::GalesKeySmall04 => 237,
            FillerItem::HeraKeySmall01 => 238,
            FillerItem::HeraKeySmall02 => 239,
            FillerItem::DarkKeySmall01 => 240,
            FillerItem::DarkKeySmall02 => 241,
            FillerItem::DarkKeySmall03 => 242,
            FillerItem::DarkKeySmall04 => 243,
            FillerItem::SwampKeySmall01 => 244,
            FillerItem::SwampKeySmall02 => 245,
            FillerItem::SwampKeySmall03 => 246,
            FillerItem::SwampKeySmall04 => 247,
            FillerItem::SkullKeySmall01 => 248,
            FillerItem::SkullKeySmall02 => 249,
            FillerItem::SkullKeySmall03 => 250,
            FillerItem::ThievesKeySmall => 251,
            FillerItem::IceKeySmall01 => 252,
            FillerItem::IceKeySmall02 => 253,
            FillerItem::IceKeySmall03 => 254,
            FillerItem::DesertKeySmall01 => 255,
            FillerItem::DesertKeySmall02 => 256,
            FillerItem::DesertKeySmall03 => 257,
            FillerItem::DesertKeySmall04 => 258,
            FillerItem::DesertKeySmall05 => 259,
            FillerItem::TurtleKeySmall01 => 260,
            FillerItem::TurtleKeySmall02 => 261,
            FillerItem::TurtleKeySmall03 => 262,
            FillerItem::LoruleCastleKeySmall01 => 263,
            FillerItem::LoruleCastleKeySmall02 => 264,
            FillerItem::LoruleCastleKeySmall03 => 265,
            FillerItem::LoruleCastleKeySmall04 => 266,
            FillerItem::LoruleCastleKeySmall05 => 267,
            FillerItem::EasternCompass => 268,
            FillerItem::GalesCompass => 269,
            FillerItem::HeraCompass => 270,
            FillerItem::DarkCompass => 271,
            FillerItem::SwampCompass => 272,
            FillerItem::SkullCompass => 273,
            FillerItem::ThievesCompass => 274,
            FillerItem::IceCompass => 275,
            FillerItem::DesertCompass => 276,
            FillerItem::TurtleCompass => 277,
            FillerItem::LoruleCastleCompass => 278,
            FillerItem::HintGlasses => 279,
            FillerItem::RupeeGreen => 280,
            FillerItem::RupeeBlue => 281,
            FillerItem::RupeeRed => 282,
            FillerItem::MonsterTail => 283,
            FillerItem::MonsterHorn => 284,
            FillerItem::MonsterGuts => 285,
            FillerItem::HeartPiece01 => 286,
            FillerItem::HeartPiece02 => 287,
            FillerItem::HeartPiece03 => 288,
            FillerItem::HeartPiece04 => 289,
            FillerItem::HeartPiece05 => 290,
            FillerItem::HeartPiece06 => 291,
            FillerItem::HeartPiece07 => 292,
            FillerItem::HeartPiece08 => 293,
            FillerItem::HeartPiece09 => 294,
            FillerItem::HeartPiece10 => 295,
            FillerItem::HeartPiece11 => 296,
            FillerItem::HeartPiece12 => 297,
            FillerItem::HeartPiece13 => 298,
            FillerItem::HeartPiece14 => 299,
            FillerItem::HeartPiece15 => 300,
            FillerItem::HeartPiece16 => 301,
            FillerItem::HeartPiece17 => 302,
            FillerItem::HeartPiece18 => 303,
            FillerItem::HeartPiece19 => 304,
            FillerItem::HeartPiece20 => 305,
            FillerItem::HeartPiece21 => 306,
            FillerItem::HeartPiece22 => 307,
            FillerItem::HeartPiece23 => 308,
            FillerItem::HeartPiece24 => 309,
            FillerItem::HeartPiece25 => 310,
            FillerItem::HeartPiece26 => 311,
            FillerItem::HeartPiece27 => 312,
            FillerItem::HeartContainer01 => 313,
            FillerItem::HeartContainer02 => 314,
            FillerItem::HeartContainer03 => 315,
            FillerItem::HeartContainer04 => 316,
            FillerItem::HeartContainer05 => 317,
            FillerItem::HeartContainer06 => 318,
            FillerItem::HeartContainer07 => 319,
            FillerItem::HeartContainer08 => 320,
            FillerItem::HeartContainer09 => 321,
            FillerItem::HeartContainer10 => 322,
            FillerItem::BeeBadge => 323,
            FillerItem::Empty => 324,
            FillerItem::ScootFruit => 325,
            FillerItem::FoulFruit => 326,
            FillerItem::Shield => 327,
            FillerItem::GoldBee => 328,
            FillerItem::OpenSanctuaryDoors => 329,
            FillerItem::ShadyGuyTrigger => 330,
            FillerItem::BigBombFlower => 331,
            FillerItem::StylishWomansHouseOpen => 332,
            FillerItem::WomanRoofMaiamai => 333,
            FillerItem::SkullEyeRight => 334,
            FillerItem::SkullEyeLeft => 335,
            FillerItem::AccessPotionShop => 336,
            FillerItem::AccessMilkBar => 337,
            FillerItem::AccessHyruleBlacksmith => 338,
            FillerItem::AccessLoruleCastleField => 339,
            FillerItem::Yuga => 340,
            FillerItem::Triforce => 341,
        }
    }

    /// The tag at a position of the catalogue; `Empty` for a position outside it.
    pub open spec fn at(i: int) -> FillerItem {
        if 0 <= i < 342 {
            if i < 171 {
                if i < 85 {
                    if i < 42 {
                        if i < 21 {
                            if i < 10 {
                                if i < 5 {
                                    if i < 2 {
                                        if i < 1 {
                                            FillerItem::Bow01
                                        } else {
                                            FillerItem::Boomerang01
                                        }
                                    } else {
                                        if i < 3 {
                                            FillerItem::Hookshot01
                                        } else {
                                            if i < 4 {
                                                FillerItem::Bombs01
                                            } else {
                                                FillerItem::FireRod01
                                            }
                                        }
                                    }
                                } else {
                                    if i < 7 {
                                        if i < 6 {
                                            FillerItem::IceRod01
                                        } else {
                                            FillerItem::Hammer01
                                        }
                                    } else {
                                        if i < 8 {
                                            FillerItem::SandRod01
                                        } else {
                                            if i < 9 {
                                                FillerItem::TornadoRod01
                                            } else {
                                                FillerItem::RaviosBracelet01
                                            }
                                        }
                                    }
                                }
                            } else {
                                if i < 15 {
                                    if i < 12 {
                                        if i < 11 {
                                            FillerItem::RaviosBracelet02
                                        } else {
                                            FillerItem::Bell
                                        }
                                    } else {
                                        if i < 13 {
                                            FillerItem::StaminaScroll
                                        } else {
                                            if i < 14 {
                                                FillerItem::BowOfLight
                                            } else {
                                                FillerItem::PegasusBoots
                                            }
                                        }
                                    }
                                } else {
                                    if i < 18 {
                                        if i < 16 {
                                            FillerItem::Flippers
                                        } else {
                                            if i < 17 {
                                                FillerItem::HylianShield
                                            } else {
                                                FillerItem::PremiumMilk
                                            }
                                        }
                                    } else {
                                        if i < 19 {
                                            FillerItem::SmoothGem
                                        } else {
                                            if i < 20 {
                                                FillerItem::LetterInABottle
                                            } else {
                                                FillerItem::Lamp01
                                            }
                                        }
                                    }
                                }
                            }
                        } else {
                            if i < 31 {
                                if i < 26 {
                                    if i < 23 {
                                        if i < 22 {
                                            FillerItem::Net01
                                        } else {
                                            FillerItem::Pouch
                                        }
                                    } else {
                                        if i < 24 {
                                            FillerItem::Bottle01
                                        } else {
                                            if i < 25 {
                                                FillerItem::Bottle02
                                            } else {
                                                FillerItem::Bottle03
                                            }
                                        }
                                    }
                                } else {
                                    if i < 28 {
                                        if i < 27 {
                                            FillerItem::Bottle04
                                        } else {
                                            FillerItem::Bottle05
                                        }
                                    } else {
                                        if i < 29 {
                                            FillerItem::Glove01
                                        } else {
                                            if i < 30 {
                                                FillerItem::Glove02
                                            } else {
                                                FillerItem::Mail01
                                            }
                                        }
                                    }
                                }
                            } else {
                                if i < 36 {
                                    if i < 33 {
                                        if i < 32 {
                                            FillerItem::Mail02
                                        } else {
                                            FillerItem::OreYellow
                                        }
                                    } else {
                                        if i < 34 {
                                            FillerItem::OreGreen
                                        } else {
                                            if i < 35 {
                                                FillerItem::OreBlue
                                            } else {
                                                FillerItem::OreRed
                                            }
                                        }
                                    }
                                } else {
                                    if i < 39 {
                                        if i < 37 {
                                            FillerItem::RupeePurple01
                                        } else {
                                            if i < 38 {
                                                FillerItem::RupeePurple02
                                            } else {
                                                FillerItem::RupeePurple03
                                            }
                                        }
                                    } else {
                                        if i < 40 {
                                            FillerItem::RupeePurple04
                                        } else {
                                            if i < 41 {
                                                FillerItem::RupeePurple05
                                            } else {
                                                FillerItem::RupeePurple06
                                            }
                                        }
                                    }
                                }
                            }
                        }
                    } else {
                        if i < 63 {
                            if i < 52 {
                                if i < 47 {
                                    if i < 44 {
                                        if i < 43 {
                                            FillerItem::RupeePurple07
                                        } else {
                                            FillerItem::RupeePurple08
                                        }
                                    } else {
                                        if i < 45 {
                                            FillerItem::RupeePurple09
                                        } else {
                                            if i < 46 {
                                                FillerItem::RupeePurple10
                                            } else {
                                                FillerItem::RupeePurple11
                                            }
                                        }
                                    }
                                } else {
                                    if i < 49 {
                                        if i < 48 {
                                            FillerItem::RupeePurple12
                                        } else {
                                            FillerItem::RupeePurple13
                                        }
                                    } else {
                                        if i < 50 {
                                            FillerItem::RupeePurple14
                                        } else {
                                            if i < 51 {
                                                FillerItem::RupeePurple15
                                            } else {
                                                FillerItem::RupeePurple16
                                            }
                                        }
                                    }
                                }
                            } else {
                                if i < 57 {
                                    if i < 54 {
                                        if i < 53 {
                                            FillerItem::RupeePurple17
                                        } else {
                                            FillerItem::RupeePurple18
                                        }
                                    } else {
                                        if i < 55 {
                                            FillerItem::RupeeSilver01
                                        } else {
                                            if i < 56 {
                                                FillerItem::RupeeSilver02
                                            } else {
                                                FillerItem::RupeeSilver03
                                            }
                                        }
                                    }
                                } else {
                                    if i < 60 {
                                        if i < 58 {
                                            FillerItem::RupeeSilver04
                                        } else {
                                            if i < 59 {
                                                FillerItem::RupeeSilver05
                                            } else {
                                                FillerItem::RupeeSilver06
                                            }
                                        }
                                    } else {
                                        if i < 61 {
                                            FillerItem::RupeeSilver07
                                        } else {
                                            if i < 62 {
                                                FillerItem::RupeeSilver08
                                            } else {
                                                FillerItem::RupeeSilver09
                                            }
                                        }
                                    }
                                }
                            }
                        } else {
                            if i < 74 {
                                if i < 68 {
                                    if i < 65 {
                                        if i < 64 {
                                            FillerItem::RupeeSilver10
                                        } else {
                                            FillerItem::RupeeSilver11
                                        }
                                    } else {
                                        if i < 66 {
                                            FillerItem::RupeeSilver12
                                        } else {
                                            if i < 67 {
                                                FillerItem::RupeeSilver13
                                            } else {
                                                FillerItem::RupeeSilver14
                                            }
                                        }
                                    }
                                } else {
                                    if i < 71 {
                                        if i < 69 {
                                            FillerItem::RupeeSilver15
                                        } else {
                                            if i < 70 {
                                                FillerItem::RupeeSilver16
                                            } else {
                                                FillerItem::RupeeSilver17
                                            }
                                        }
                                    } else {
                                        if i < 72 {
                                            FillerItem::RupeeSilver18
                                        } else {
                                            if i < 73 {
                                                FillerItem::RupeeSilver19
                                            } else {
                                                FillerItem::RupeeSilver20
                                            }
                                        }
                                    }
                                }
                            } else {
                                if i < 79 {
                                    if i < 76 {
                                        if i < 75 {
                                            FillerItem::RupeeSilver21
                                        } else {
                                            FillerItem::RupeeSilver22
                                        }
                                    } else {
                                        if i < 77 {
                                            FillerItem::RupeeSilver23
                                        } else {
                                            if i < 78 {
                                                FillerItem::RupeeSilver24
                                            } else {
                                                FillerItem::RupeeSilver25
                                            }
                                        }
                                    }
                                } else {
                                    if i < 82 {
                                        if i < 80 {
                                            FillerItem::RupeeSilver26
                                        } else {
                                            if i < 81 {
                                                FillerItem::RupeeSilver27
                                            } else {
                                                FillerItem::RupeeSilver28
                                            }
                                        }
                                    } else {
                                        if i < 83 {
                                            FillerItem::RupeeSilver29
                                        } else {
                                            if i < 84 {
                                                FillerItem::RupeeSilver30
                                            } else {
                                                FillerItem::RupeeSilver31
                                            }
                                        }
                                    }
                                }
                            }
                        }
                    }
                } else {
                    if i < 128 {
                        if i < 106 {
                            if i < 95 {
                                if i < 90 {
                                    if i < 87 {
                                        if i < 86 {
                                            FillerItem::RupeeSilver32
                                        } else {
                                            FillerItem::RupeeSilver33
                                        }
                                    } else {
                                        if i < 88 {
                                            FillerItem::RupeeSilver34
                                        } else {
                                            if i < 89 {
                                                FillerItem::RupeeSilver35
                                            } else {
                                                FillerItem::RupeeSilver36
                                            }
                                        }
                                    }
                                } else {
                                    if i < 92 {
                                        if i < 91 {
                                            FillerItem::RupeeSilver37
                                        } else {
                                            FillerItem::RupeeSilver38
                                        }
                                    } else {
                                        if i < 93 {
                                            FillerItem::RupeeSilver39
                                        } else {
                                            if i < 94 {
                                                FillerItem::RupeeSilver40
                                            } else {
                                                FillerItem::RupeeGold01
                                            }
                                        }
                                    }
                                }
                            } else {
                                if i < 100 {
                                    if i < 97 {
                                        if i < 96 {
                                            FillerItem::RupeeGold02
                                        } else {
                                            FillerItem::RupeeGold03
                                        }
                                    } else {
                                        if i < 98 {
                                            FillerItem::RupeeGold04
                                        } else {
                                            if i < 99 {
                                                FillerItem::RupeeGold05
                                            } else {
                                                FillerItem::RupeeGold06
                                            }
                                        }
                                    }
                                } else {
                                    if i < 103 {
                                        if i < 101 {
                                            FillerItem::RupeeGold07
                                        } else {
                                            if i < 102 {
                                                FillerItem::RupeeGold08
                                            } else {
                                                FillerItem::RupeeGold09
                                            }
                                        }
                                    } else {
                                        if i < 104 {
                                            FillerItem::RupeeGold10
                                        } else {
                                            if i < 105 {
                                                FillerItem::Maiamai001
                                            } else {
                                                FillerItem::Maiamai002
                                            }
                                        }
                                    }
                                }
                            }
                        } else {
                            if i < 117 {
                                if i < 111 {
                                    if i < 108 {
                                        if i < 107 {
                                            FillerItem::Maiamai003
                                        } else {
                                            FillerItem::Maiamai004
                                        }
                                    } else {
                                        if i < 109 {
                                            FillerItem::Maiamai005
                                        } else {
                                            if i < 110 {
                                                FillerItem::Maiamai006
                                            } else {
                                                FillerItem::Maiamai007
                                            }
                                        }
                                    }
                                } else {
                                    if i < 114 {
                                        if i < 112 {
                                            FillerItem::Maiamai008
                                        } else {
                                            if i < 113 {
                                                FillerItem::Maiamai009
                                            } else {
                                                FillerItem::Maiamai010
                                            }
                                        }
                                    } else {
                                        if i < 115 {
                                            FillerItem::Maiamai011
                                        } else {
                                            if i < 116 {
                                                FillerItem::Maiamai012
                                            } else {
                                                FillerItem::Maiamai013
                                            }
                                        }
                                    }
                                }
                            } else {
                                if i < 122 {
                                    if i < 119 {
                                        if i < 118 {
                                            FillerItem::Maiamai014
                                        } else {
                                            FillerItem::Maiamai015
                                        }
                                    } else {
                                        if i < 120 {
                                            FillerItem::Maiamai016
                                        } else {
                                            if i < 121 {
                                                FillerItem::Maiamai017
                                            } else {
                                                FillerItem::Maiamai018
                                            }
                                        }
                                    }
                                } else {
                                    if i < 125 {
                                        if i < 123 {
                                            FillerItem::Maiamai019
                                        } else {
                                            if i < 124 {
                                                FillerItem::Maiamai020
                                            } else {
                                                FillerItem::Maiamai021
                                            }
                                        }
                                    } else {
                                        if i < 126 {
                                            FillerItem::Maiamai022
                                        } else {
                                            if i < 127 {
                                                FillerItem::Maiamai023
                                            } else {
                                                FillerItem::Maiamai024
                                            }
                                        }
                                    }
                                }
                            }
                        }
                    } else {
                        if i < 149 {
                            if i < 138 {
                                if i < 133 {
                                    if i < 130 {
                                        if i < 129 {
                                            FillerItem::Maiamai025
                                        } else {
                                            FillerItem::Maiamai026
                                        }
                                    } else {
                                        if i < 131 {
                                            FillerItem::Maiamai027
                                        } else {
                                            if i < 132 {
                                                FillerItem::Maiamai028
                                            } else {
                                                FillerItem::Maiamai029
                                            }
                                        }
                                    }
                                } else {
                                    if i < 135 {
                                        if i < 134 {
                                            FillerItem::Maiamai030
                                        } else {
                                            FillerItem::Maiamai031
                                        }
                                    } else {
                                        if i < 136 {
                                            FillerItem::Maiamai032
                                        } else {
                                            if i < 137 {
                                                FillerItem::Maiamai033
                                            } else {
                                                FillerItem::Maiamai034
                                            }
                                        }
                                    }
                                }
                            } else {
                                if i < 143 {
                                    if i < 140 {
                                        if i < 139 {
                                            FillerItem::Maiamai035
                                        } else {
                                            FillerItem::Maiamai036
                                        }
                                    } else {
                                        if i < 141 {
                                            FillerItem::Maiamai037
                                        } else {
                                            if i < 142 {
                                                FillerItem::Maiamai038
                                            } else {
                                                FillerItem::Maiamai039
                                            }
                                        }
                                    }
                                } else {
                                    if i < 146 {
                                        if i < 144 {
                                            FillerItem::Maiamai040
                                        } else {
                                            if i < 145 {
                                                FillerItem::Maiamai041
                                            } else {
                                                FillerItem::Maiamai042
                                            }
                                        }
                                    } else {
                                        if i < 147 {
                                            FillerItem::Maiamai043
                                        } else {
                                            if i < 148 {
                                                FillerItem::Maiamai044
                                            } else {
                                                FillerItem::Maiamai045
                                            }
                                        }
                                    }
                                }
                            }
                        } else {
                            if i < 160 {
                                if i < 154 {
                                    if i < 151 {
                                        if i < 150 {
                                            FillerItem::Maiamai046
                                        } else {
                                            FillerItem::Maiamai047
                                        }
                                    } else {
                                        if i < 152 {
                                            FillerItem::Maiamai048
                                        } else {
                                            if i < 153 {
                                                FillerItem::Maiamai049
                                            } else {
                                                FillerItem::Maiamai050
                                            }
                                        }
                                    }
                                } else {
                                    if i < 157 {
                                        if i < 155 {
                                            FillerItem::Maiamai051
                                        } else {
                                            if i < 156 {
                                                FillerItem::Maiamai052
                                            } else {
                                                FillerItem::Maiamai053
                                            }
                                        }
                                    } else {
                                        if i < 158 {
                                            FillerItem::Maiamai054
                                        } else {
                                            if i < 159 {
                                                FillerItem::Maiamai055
                                            } else {
                                                FillerItem::Maiamai056
                                            }
                                        }
                                    }
                                }
                            } else {
                                if i < 165 {
                                    if i < 162 {
                                        if i < 161 {
                                            FillerItem::Maiamai057
                                        } else {
                                            FillerItem::Maiamai058
                                        }
                                    } else {
                                        if i < 163 {
                                            FillerItem::Maiamai059
                                        } else {
                                            if i < 164 {
                                                FillerItem::Maiamai060
                                            } else {
                                                FillerItem::Maiamai061
                                            }
                                        }
                                    }
                                } else {
                                    if i < 168 {
                                        if i < 166 {
                                            FillerItem::Maiamai062
                                        } else {
                                            if i < 167 {
                                                FillerItem::Maiamai063
                                            } else {
                                                FillerItem::Maiamai064
                                            }
                                        }
                                    } else {
                                        if i < 169 {
                                            FillerItem::Maiamai065
                                        } else {
                                            if i < 170 {
                                                FillerItem::Maiamai066
                                            } else {
                                                FillerItem::Maiamai067
                                            }
                                        }
                                    }
                                }
                            }
                        }
                    }
                }
            } else {
                if i < 256 {
                    if i < 213 {
                        if i < 192 {
                            if i < 181 {
                                if i < 176 {
                                    if i < 173 {
                                        if i < 172 {
                                            FillerItem::Maiamai068
                                        } else {
                                            FillerItem::Maiamai069
                                        }
                                    } else {
                                        if i < 174 {
                                            FillerItem::Maiamai070
                                        } else {
                                            if i < 175 {
                                                FillerItem::Maiamai071
                                            } else {
                                                FillerItem::Maiamai072
                                            }
                                        }
                                    }
                                } else {
                                    if i < 178 {
                                        if i < 177 {
                                            FillerItem::Maiamai073
                                        } else {
                                            FillerItem::Maiamai074
                                        }
                                    } else {
                                        if i < 179 {
                                            FillerItem::Maiamai075
                                        } else {
                                            if i < 180 {
                                                FillerItem::Maiamai076
                                            } else {
                                                FillerItem::Maiamai077
                                            }
                                        }
                                    }
                                }
                            } else {
                                if i < 186 {
                                    if i < 183 {
                                        if i < 182 {
                                            FillerItem::Maiamai078
                                        } else {
                                            FillerItem::Maiamai079
                                        }
                                    } else {
                                        if i < 184 {
                                            FillerItem::Maiamai080
                                        } else {
                                            if i < 185 {
                                                FillerItem::Maiamai081
                                            } else {
                                                FillerItem::Maiamai082
                                            }
                                        }
                                    }
                                } else {
                                    if i < 189 {
                                        if i < 187 {
                                            FillerItem::Maiamai083
                                        } else {
                                            if i < 188 {
                                                FillerItem::Maiamai084
                                            } else {
                                                FillerItem::Maiamai085
                                            }
                                        }
                                    } else {
                                        if i < 190 {
                                            FillerItem::Maiamai086
                                        } else {
                                            if i < 191 {
                                                FillerItem::Maiamai087
                                            } else {
                                                FillerItem::Maiamai088
                                            }
                                        }
                                    }
                                }
                            }
                        } else {
                            if i < 202 {
                                if i < 197 {
                                    if i < 194 {
                                        if i < 193 {
                                            FillerItem::Maiamai089
                                        } else {
                                            FillerItem::Maiamai090
                                        }
                                    } else {
                                        if i < 195 {
                                            FillerItem::Maiamai091
                                        } else {
                                            if i < 196 {
                                                FillerItem::Maiamai092
                                            } else {
                                                FillerItem::Maiamai093
                                            }
                                        }
                                    }
                                } else {
                                    if i < 199 {
                                        if i < 198 {
                                            FillerItem::Maiamai094
                                        } else {
                                            FillerItem::Maiamai095
                                        }
                                    } else {
                                        if i < 200 {
                                            FillerItem::Maiamai096
                                        } else {
                                            if i < 201 {
                                                FillerItem::Maiamai097
                                            } else {
                                                FillerItem::Maiamai098
                                            }
                                        }
                                    }
                                }
                            } else {
                                if i < 207 {
                                    if i < 204 {
                                        if i < 203 {
                                            FillerItem::Maiamai099
                                        } else {
                                            FillerItem::Maiamai100
                                        }
                                    } else {
                                        if i < 205 {
                                            FillerItem::Sword01
                                        } else {
                                            if i < 206 {
                                                FillerItem::Sword02
                                            } else {
                                                FillerItem::Sword03
                                            }
                                        }
                                    }
                                } else {
                                    if i < 210 {
                                        if i < 208 {
                                            FillerItem::Sword04
                                        } else {
                                            if i < 209 {
                                                FillerItem::Lamp02
                                            } else {
                                                FillerItem::Net02
                                            }
                                        }
                                    } else {
                                        if i < 211 {
                                            FillerItem::PendantOfCourage
                                        } else {
                                            if i < 212 {
                                                FillerItem::PendantOfWisdom
                                            } else {
                                                FillerItem::PendantOfPower
                                            }
                                        }
                                    }
                                }
                            }
                        }
                    } else {
                        if i < 234 {
                            if i < 223 {
                                if i < 218 {
                                    if i < 215 {
                                        if i < 214 {
                                            FillerItem::SageGulley
                                        } else {
                                            FillerItem::SageOren
                                        }
                                    } else {
                                        if i < 216 {
                                            FillerItem::SageSeres
                                        } else {
                                            if i < 217 {
                                                FillerItem::SageOsfala
                                            } else {
                                                FillerItem::SageImpa
                                            }
                                        }
                                    }
                                } else {
                                    if i < 220 {
                                        if i < 219 {
                                            FillerItem::SageIrene
                                        } else {
                                            FillerItem::SageRosso
                                        }
                                    } else {
                                        if i < 221 {
                                            FillerItem::EasternKeyBig
                                        } else {
                                            if i < 222 {
                                                FillerItem::GalesKeyBig
                                            } else {
                                                FillerItem::HeraKeyBig
                                            }
                                        }
                                    }
                                }
                            } else {
                                if i < 228 {
                                    if i < 225 {
                                        if i < 224 {
                                            FillerItem::DarkKeyBig
                                        } else {
                                            FillerItem::SwampKeyBig
                                        }
                                    } else {
                                        if i < 226 {
                                            FillerItem::SkullKeyBig
                                        } else {
                                            if i < 227 {
                                                FillerItem::ThievesKeyBig
                                            } else {
                                                FillerItem::IceKeyBig
                                            }
                                        }
                                    }
                                } else {
                                    if i < 231 {
                                        if i < 229 {
                                            FillerItem::DesertKeyBig
                                        } else {
                                            if i < 230 {
                                                FillerItem::TurtleKeyBig
                                            } else {
                                                FillerItem::HyruleSanctuaryKey
                                            }
                                        }
                                    } else {
                                        if i < 232 {
                                            FillerItem::LoruleSanctuaryKey
                                        } else {
                                            if i < 233 {
                                                FillerItem::EasternKeySmall01
                                            } else {
                                                FillerItem::EasternKeySmall02
                                            }
                                        }
                                    }
                                }
                            }
                        } else {
                            if i < 245 {
                                if i < 239 {
                                    if i < 236 {
                                        if i < 235 {
                                            FillerItem::GalesKeySmall01
                                        } else {
                                            FillerItem::GalesKeySmall02
                                        }
                                    } else {
                                        if i < 237 {
                                            FillerItem::GalesKeySmall03
                                        } else {
                                            if i < 238 {
                                                FillerItem::GalesKeySmall04
                                            } else {
                                                FillerItem::HeraKeySmall01
                                            }
                                        }
                                    }
                                } else {
                                    if i < 242 {
                                        if i < 240 {
                                            FillerItem::HeraKeySmall02
                                        } else {
                                            if i < 241 {
                                                FillerItem::DarkKeySmall01
                                            } else {
                                                FillerItem::DarkKeySmall02
                                            }
                                        }
                                    } else {
                                        if i < 243 {
                                            FillerItem::DarkKeySmall03
                                        } else {
                                            if i < 244 {
                                                FillerItem::DarkKeySmall04
                                            } else {
                                                FillerItem::SwampKeySmall01
                                            }
                                        }
                                    }
                                }
                            } else {
                                if i < 250 {
                                    if i < 247 {
                                        if i < 246 {
                                            FillerItem::SwampKeySmall02
                                        } else {
                                            FillerItem::SwampKeySmall03
                                        }
                                    } else {
                                        if i < 248 {
                                            FillerItem::SwampKeySmall04
                                        } else {
                                            if i < 249 {
                                                FillerItem::SkullKeySmall01
                                            } else {
                                                FillerItem::SkullKeySmall02
                                            }
                                        }
                                    }
                                } else {
                                    if i < 253 {
                                        if i < 251 {
                                            FillerItem::SkullKeySmall03
                                        } else {
                                            if i < 252 {
                                                FillerItem::ThievesKeySmall
                                            } else {
                                                FillerItem::IceKeySmall01
                                            }
                                        }
                                    } else {
                                        if i < 254 {
                                            FillerItem::IceKeySmall02
                                        } else {
                                            if i < 255 {
                                                FillerItem::IceKeySmall03
                                            } else {
                                                FillerItem::DesertKeySmall01
                                            }
                                        }
                                    }
                                }
                            }
                        }
                    }
                } else {
                    if i < 299 {
                        if i < 277 {
                            if i < 266 {
                                if i < 261 {
                                    if i < 258 {
                                        if i < 257 {
                                            FillerItem::DesertKeySmall02
                                        } else {
                                            FillerItem::DesertKeySmall03
                                        }
                                    } else {
                                        if i < 259 {
                                            FillerItem::DesertKeySmall04
                                        } else {
                                            if i < 260 {
                                                FillerItem::DesertKeySmall05
                                            } else {
                                                FillerItem::TurtleKeySmall01
                                            }
                                        }
                                    }
                                } else {
                                    if i < 263 {
                                        if i < 262 {
                                            FillerItem::TurtleKeySmall02
                                        } else {
                                            FillerItem::TurtleKeySmall03
                                        }
                                    } else {
                                        if i < 264 {
                                            FillerItem::LoruleCastleKeySmall01
                                        } else {
                                            if i < 265 {
                                                FillerItem::LoruleCastleKeySmall02
                                            } else {
                                                FillerItem::LoruleCastleKeySmall03
                                            }
                                        }
                                    }
                                }
                            } else {
                                if i < 271 {
                                    if i < 268 {
                                        if i < 267 {
                                            FillerItem::LoruleCastleKeySmall04
                                        } else {
                                            FillerItem::LoruleCastleKeySmall05
                                        }
                                    } else {
                                        if i < 269 {
                                            FillerItem::EasternCompass
                                        } else {
                                            if i < 270 {
                                                FillerItem::GalesCompass
                                            } else {
                                                FillerItem::HeraCompass
                                            }
                                        }
                                    }
                                } else {
                                    if i < 274 {
                                        if i < 272 {
                                            FillerItem::DarkCompass
                                        } else {
                                            if i < 273 {
                                                FillerItem::SwampCompass
                                            } else {
                                                FillerItem::SkullCompass
                                            }
                                        }
                                    } else {
                                        if i < 275 {
                                            FillerItem::ThievesCompass
                                        } else {
                                            if i < 276 {
                                                FillerItem::IceCompass
                                            } else {
                                                FillerItem::DesertCompass
                                            }
                                        }
                                    }
                                }
                            }
                        } else {
                            if i < 288 {
                                if i < 282 {
                                    if i < 279 {
                                        if i < 278 {
                                            FillerItem::TurtleCompass
                                        } else {
                                            FillerItem::LoruleCastleCompass
                                        }
                                    } else {
                                        if i < 280 {
                                            FillerItem::HintGlasses
                                        } else {
                                            if i < 281 {
                                                FillerItem::RupeeGreen
                                            } else {
                                                FillerItem::RupeeBlue
                                            }
                                        }
                                    }
                                } else {
                                    if i < 285 {
                                        if i < 283 {
                                            FillerItem::RupeeRed
                                        } else {
                                            if i < 284 {
                                                FillerItem::MonsterTail
                                            } else {
                                                FillerItem::MonsterHorn
                                            }
                                        }
                                    } else {
                                        if i < 286 {
                                            FillerItem::MonsterGuts
                                        } else {
                                            if i < 287 {
                                                FillerItem::HeartPiece01
                                            } else {
                                                FillerItem::HeartPiece02
                                            }
                                        }
                                    }
                                }
                            } else {
                                if i < 293 {
                                    if i < 290 {
                                        if i < 289 {
                                            FillerItem::HeartPiece03
                                        } else {
                                            FillerItem::HeartPiece04
                                        }
                                    } else {
                                        if i < 291 {
                                            FillerItem::HeartPiece05
                                        } else {
                                            if i < 292 {
                                                FillerItem::HeartPiece06
                                            } else {
                                                FillerItem::HeartPiece07
                                            }
                                        }
                                    }
                                } else {
                                    if i < 296 {
                                        if i < 294 {
                                            FillerItem::HeartPiece08
                                        } else {
                                            if i < 295 {
                                                FillerItem::HeartPiece09
                                            } else {
                                                FillerItem::HeartPiece10
                                            }
                                        }
                                    } else {
                                        if i < 297 {
                                            FillerItem::HeartPiece11
                                        } else {
                                            if i < 298 {
                                                FillerItem::HeartPiece12
                                            } else {
                                                FillerItem::HeartPiece13
                                            }
                                        }
                                    }
                                }
                            }
                        }
                    } else {
                        if i < 320 {
                            if i < 309 {
                                if i < 304 {
                                    if i < 301 {
                                        if i < 300 {
                                            FillerItem::HeartPiece14
                                        } else {
                                            FillerItem::HeartPiece15
                                        }
                                    } else {
                                        if i < 302 {
                                            FillerItem::HeartPiece16
                                        } else {
                                            if i < 303 {
                                                FillerItem::HeartPiece17
                                            } else {
                                                FillerItem::HeartPiece18
                                            }
                                        }
                                    }
                                } else {
                                    if i < 306 {
                                        if i < 305 {
                                            FillerItem::HeartPiece19
                                        } else {
                                            FillerItem::HeartPiece20
                                        }
                                    } else {
                                        if i < 307 {
                                            FillerItem::HeartPiece21
                                        } else {
                                            if i < 308 {
                                                FillerItem::HeartPiece22
                                            } else {
                                                FillerItem::HeartPiece23
                                            }
                                        }
                                    }
                                }
                            } else {
                                if i < 314 {
                                    if i < 311 {
                                        if i < 310 {
                                            FillerItem::HeartPiece24
                                        } else {
                                            FillerItem::HeartPiece25
                                        }
                                    } else {
                                        if i < 312 {
                                            FillerItem::HeartPiece26
                                        } else {
                                            if i < 313 {
                                                FillerItem::HeartPiece27
                                            } else {
                                                FillerItem::HeartContainer01
                                            }
                                        }
                                    }
                                } else {
                                    if i < 317 {
                                        if i < 315 {
                                            FillerItem::HeartContainer02
                                        } else {
                                            if i < 316 {
                                                FillerItem::HeartContainer03
                                            } else {
                                                FillerItem::HeartContainer04
                                            }
                                        }
                                    } else {
                                        if i < 318 {
                                            FillerItem::HeartContainer05
                                        } else {
                                            if i < 319 {
                                                FillerItem::HeartContainer06
                                            } else {
                                                FillerItem::HeartContainer07
                                            }
                                        }
                                    }
                                }
                            }
                        } else {
                            if i < 331 {
                                if i < 325 {
                                    if i < 322 {
                                        if i < 321 {
                                            FillerItem::HeartContainer08
                                        } else {
                                            FillerItem::HeartContainer09
                                        }
                                    } else {
                                        if i < 323 {
                                            FillerItem::HeartContainer10
                                        } else {
                                            if i < 324 {
                                                FillerItem::BeeBadge
                                            } else {
                                                FillerItem::Empty
                                            }
                                        }
                                    }
                                } else {
                                    if i < 328 {
                                        if i < 326 {
                                            FillerItem::ScootFruit
                                        } else {
                                            if i < 327 {
                                                FillerItem::FoulFruit
                                            } else {
                                                FillerItem::Shield
                                            }
                                        }
                                    } else {
                                        if i < 329 {
                                            FillerItem::GoldBee
                                        } else {
                                            if i < 330 {
                                                FillerItem::OpenSanctuaryDoors
                                            } else {
                                                FillerItem::ShadyGuyTrigger
                                            }
                                        }
                                    }
                                }
                            } else {
                                if i < 336 {
                                    if i < 333 {
                                        if i < 332 {
                                            FillerItem::BigBombFlower
                                        } else {
                                            FillerItem::StylishWomansHouseOpen
                                        }
                                    } else {
                                        if i < 334 {
                                            FillerItem::WomanRoofMaiamai
                                        } else {
                                            if i < 335 {
                                                FillerItem::SkullEyeRight
                                            } else {
                                                FillerItem::SkullEyeLeft
                                            }
                                        }
                                    }
                                } else {
                                    if i < 339 {
                                        if i < 337 {
                                            FillerItem::AccessPotionShop
                                        } else {
                                            if i < 338 {
                                                FillerItem::AccessMilkBar
                                            } else {
                                                FillerItem::AccessHyruleBlacksmith
                                            }
                                        }
                                    } else {
                                        if i < 340 {
                                            FillerItem::AccessLoruleCastleField
                                        } else {
                                            if i < 341 {
                                                FillerItem::Yuga
                                            } else {
                                                FillerItem::Triforce
                                            }
                                        }
                                    }
                                }
                            }
                        }
                    }
                }
            }
        } else {
            FillerItem::Empty
        }
    }

    /// The position of the tag in the catalogue.
    pub fn index(self) -> (r: usize)
        ensures
            r == self.position(),
            r < ITEM_COUNT,
    {
        match self {
            FillerItem::Bow01 => 0,
            FillerItem::Boomerang01 => 1,
            FillerItem::Hookshot01 => 2,
            FillerItem::Bombs01 => 3,
            FillerItem::FireRod01 => 4,
            FillerItem::IceRod01 => 5,
            FillerItem::Hammer01 => 6,
            FillerItem::SandRod01 => 7,
            FillerItem::TornadoRod01 => 8,
            FillerItem::RaviosBracelet01 => 9,
            FillerItem::RaviosBracelet02 => 10,
            FillerItem::Bell => 11,
            FillerItem::StaminaScroll => 12,
            FillerItem::BowOfLight => 13,
            FillerItem::PegasusBoots => 14,
            FillerItem::Flippers => 15,
            FillerItem::HylianShield => 16,
            FillerItem::PremiumMilk => 17,
            FillerItem::SmoothGem => 18,
            FillerItem::LetterInABottle => 19,
            FillerItem::Lamp01 => 20,
            FillerItem::Net01 => 21,
            FillerItem::Pouch => 22,
            FillerItem::Bottle01 => 23,
            FillerItem::Bottle02 => 24,
            FillerItem::Bottle03 => 25,
            FillerItem::Bottle04 => 26,
            FillerItem::Bottle05 => 27,
            FillerItem::Glove01 => 28,
            FillerItem::Glove02 => 29,
            FillerItem::Mail01 => 30,
            FillerItem::Mail02 => 31,
            FillerItem::OreYellow => 32,
            FillerItem::OreGreen => 33,
            FillerItem::OreBlue => 34,
            FillerItem::OreRed => 35,
            FillerItem::RupeePurple01 => 36,
            FillerItem::RupeePurple02 => 37,
            FillerItem::RupeePurple03 => 38,
            FillerItem::RupeePurple04 => 39,
            FillerItem::RupeePurple05 => 40,
            FillerItem::RupeePurple06 => 41,
            FillerItem::RupeePurple07 => 42,
            FillerItem::RupeePurple08 => 43,
            FillerItem::RupeePurple09 => 44,
            FillerItem::RupeePurple10 => 45,
            FillerItem::RupeePurple11 => 46,
            FillerItem::RupeePurple12 => 47,
            FillerItem::RupeePurple13 => 48,
            FillerItem::RupeePurple14 => 49,
            FillerItem::RupeePurple15 => 50,
            FillerItem::RupeePurple16 => 51,
            FillerItem::RupeePurple17 => 52,
            FillerItem::RupeePurple18 => 53,
            FillerItem::RupeeSilver01 => 54,
            FillerItem::RupeeSilver02 => 55,
            FillerItem::RupeeSilver03 => 56,
            FillerItem::RupeeSilver04 => 57,
            FillerItem::RupeeSilver05 => 58,
            FillerItem::RupeeSilver06 => 59,
            FillerItem::RupeeSilver07 => 60,
            FillerItem::RupeeSilver08 => 61,
            FillerItem::RupeeSilver09 => 62,
            FillerItem::RupeeSilver10 => 63,
            FillerItem::RupeeSilver11 => 64,
            FillerItem::RupeeSilver12 => 65,
            FillerItem::RupeeSilver13 => 66,
            FillerItem::RupeeSilver14 => 67,
            FillerItem::RupeeSilver15 => 68,
            FillerItem::RupeeSilver16 => 69,
            FillerItem::RupeeSilver17 => 70,
            FillerItem::RupeeSilver18 => 71,
            FillerItem::RupeeSilver19 => 72,
            FillerItem::RupeeSilver20 => 73,
            FillerItem::RupeeSilver21 => 74,
            FillerItem::RupeeSilver22 => 75,
            FillerItem::RupeeSilver23 => 76,
            FillerItem::RupeeSilver24 => 77,
            FillerItem::RupeeSilver25 => 78,
            FillerItem::RupeeSilver26 => 79,
            FillerItem::RupeeSilver27 => 80,
            FillerItem::RupeeSilver28 => 81,
            FillerItem::RupeeSilver29 => 82,
            FillerItem::RupeeSilver30 => 83,
            FillerItem::RupeeSilver31 => 84,
            FillerItem::RupeeSilver32 => 85,
            FillerItem::RupeeSilver33 => 86,
            FillerItem::RupeeSilver34 => 87,
            FillerItem::RupeeSilver35 => 88,
            FillerItem::RupeeSilver36 => 89,
            FillerItem::RupeeSilver37 => 90,
            FillerItem::RupeeSilver38 => 91,
            FillerItem::RupeeSilver39 => 92,
            FillerItem::RupeeSilver40 => 93,
            FillerItem::RupeeGold01 => 94,
            FillerItem::RupeeGold02 => 95,
            FillerItem::RupeeGold03 => 96,
            FillerItem::RupeeGold04 => 97,
            FillerItem::RupeeGold05 => 98,
            FillerItem::RupeeGold06 => 99,
            FillerItem::RupeeGold07 => 100,
            FillerItem::RupeeGold08 => 101,
            FillerItem::RupeeGold09 => 102,
            FillerItem::RupeeGold10 => 103,
            FillerItem::Maiamai001 => 104,
            FillerItem::Maiamai002 => 105,
            FillerItem::Maiamai003 => 106,
            FillerItem::Maiamai004 => 107,
            FillerItem::Maiamai005 => 108,
            FillerItem::Maiamai006 => 109,
            FillerItem::Maiamai007 => 110,
            FillerItem::Maiamai008 => 111,
            FillerItem::Maiamai009 => 112,
            FillerItem::Maiamai010 => 113,
            FillerItem::Maiamai011 => 114,
            FillerItem::Maiamai012 => 115,
            FillerItem::Maiamai013 => 116,
            FillerItem::Maiamai014 => 117,
            FillerItem::Maiamai015 => 118,
            FillerItem::Maiamai016 => 119,
            FillerItem::Maiamai017 => 120,
            FillerItem::Maiamai018 => 121,
            FillerItem::Maiamai019 => 122,
            FillerItem::Maiamai020 => 123,
            FillerItem::Maiamai021 => 124,
            FillerItem::Maiamai022 => 125,
            FillerItem::Maiamai023 => 126,
            FillerItem::Maiamai024 => 127,
            FillerItem::Maiamai025 => 128,
            FillerItem::Maiamai026 => 129,
            FillerItem::Maiamai027 => 130,
            FillerItem::Maiamai028 => 131,
            FillerItem::Maiamai029 => 132,
            FillerItem::Maiamai030 => 133,
            FillerItem::Maiamai031 => 134,
            FillerItem::Maiamai032 => 135,
            FillerItem::Maiamai033 => 136,
            FillerItem::Maiamai034 => 137,
            FillerItem::Maiamai035 => 138,
            FillerItem::Maiamai036 => 139,
            FillerItem::Maiamai037 => 140,
            FillerItem::Maiamai038 => 141,
            FillerItem::Maiamai039 => 142,
            FillerItem::Maiamai040 => 143,
            FillerItem::Maiamai041 => 144,
            FillerItem::Maiamai042 => 145,
            FillerItem::Maiamai043 => 146,
            FillerItem::Maiamai044 => 147,
            FillerItem::Maiamai045 => 148,
            FillerItem::Maiamai046 => 149,
            FillerItem::Maiamai047 => 150,
            FillerItem::Maiamai048 => 151,
            FillerItem::Maiamai049 => 152,
            FillerItem::Maiamai050 => 153,
            FillerItem::Maiamai051 => 154,
            FillerItem::Maiamai052 => 155,
            FillerItem::Maiamai053 => 156,
            FillerItem::Maiamai054 => 157,
            FillerItem::Maiamai055 => 158,
            FillerItem::Maiamai056 => 159,
            FillerItem::Maiamai057 => 160,
            FillerItem::Maiamai058 => 161,
            FillerItem::Maiamai059 => 162,
            FillerItem::Maiamai060 => 163,
            FillerItem::Maiamai061 => 164,
            FillerItem::Maiamai062 => 165,
            FillerItem::Maiamai063 => 166,
            FillerItem::Maiamai064 => 167,
            FillerItem::Maiamai065 => 168,
            FillerItem::Maiamai066 => 169,
            FillerItem::Maiamai067 => 170,
            FillerItem::Maiamai068 => 171,
            FillerItem::Maiamai069 => 172,
            FillerItem::Maiamai070 => 173,
            FillerItem::Maiamai071 => 174,
            FillerItem::Maiamai072 => 175,
            FillerItem::Maiamai073 => 176,
            FillerItem::Maiamai074 => 177,
            FillerItem::Maiamai075 => 178,
            FillerItem::Maiamai076 => 179,
            FillerItem::Maiamai077 => 180,
            FillerItem::Maiamai078 => 181,
            FillerItem::Maiamai079 => 182,
            FillerItem::Maiamai080 => 183,
            FillerItem::Maiamai081 => 184,
            FillerItem::Maiamai082 => 185,
            FillerItem::Maiamai083 => 186,
            FillerItem::Maiamai084 => 187,
            FillerItem::Maiamai085 => 188,
            FillerItem::Maiamai086 => 189,
            FillerItem::Maiamai087 => 190,
            FillerItem::Maiamai088 => 191,
            FillerItem::Maiamai089 => 192,
            FillerItem::Maiamai090 => 193,
            FillerItem::Maiamai091 => 194,
            FillerItem::Maiamai092 => 195,
            FillerItem::Maiamai093 => 196,
            FillerItem::Maiamai094 => 197,
            FillerItem::Maiamai095 => 198,
            FillerItem::Maiamai096 => 199,
            FillerItem::Maiamai097 => 200,
            FillerItem::Maiamai098 => 201,
            FillerItem::Maiamai099 => 202,
            FillerItem::Maiamai100 => 203,
            FillerItem::Sword01 => 204,
            FillerItem::Sword02 => 205,
            FillerItem::Sword03 => 206,
            FillerItem::Sword04 => 207,
            FillerItem::Lamp02 => 208,
            FillerItem::Net02 => 209,
            FillerItem::PendantOfCourage => 210,
            FillerItem::PendantOfWisdom => 211,
            FillerItem::PendantOfPower => 212,
            FillerItem::SageGulley => 213,
            FillerItem::SageOren => 214,
            FillerItem::SageSeres => 215,
            FillerItem::SageOsfala => 216,
            FillerItem::SageImpa => 217,
            FillerItem::SageIrene => 218,
            FillerItem::SageRosso => 219,
            FillerItem::EasternKeyBig => 220,
            FillerItem::GalesKeyBig => 221,
            FillerItem::HeraKeyBig => 222,
            FillerItem::DarkKeyBig => 223,
            FillerItem::SwampKeyBig => 224,
            FillerItem::SkullKeyBig => 225,
            FillerItem::ThievesKeyBig => 226,
            FillerItem::IceKeyBig => 227,
            FillerItem::DesertKeyBig => 228,
            FillerItem::TurtleKeyBig => 229,
            FillerItem::HyruleSanctuaryKey => 230,
            FillerItem::LoruleSanctuaryKey => 231,
            FillerItem::EasternKeySmall01 => 232,
            FillerItem::EasternKeySmall02 => 233,
            FillerItem::GalesKeySmall01 => 234,
            FillerItem::GalesKeySmall02 => 235,
            FillerItem::GalesKeySmall03 => 236,
            FillerItem::GalesKeySmall04 => 237,
            FillerItem::HeraKeySmall01 => 238,
            FillerItem::HeraKeySmall02 => 239,
            FillerItem::DarkKeySmall01 => 240,
            FillerItem::DarkKeySmall02 => 241,
            FillerItem::DarkKeySmall03 => 242,
            FillerItem::DarkKeySmall04 => 243,
            FillerItem::SwampKeySmall01 => 244,
            FillerItem::SwampKeySmall02 => 245,
            FillerItem::SwampKeySmall03 => 246,
            FillerItem::SwampKeySmall04 => 247,
            FillerItem::SkullKeySmall01 => 248,
            FillerItem::SkullKeySmall02 => 249,
            FillerItem::SkullKeySmall03 => 250,
            FillerItem::ThievesKeySmall => 251,
            FillerItem::IceKeySmall01 => 252,
            FillerItem::IceKeySmall02 => 253,
            FillerItem::IceKeySmall03 => 254,
            FillerItem::DesertKeySmall01 => 255,
            FillerItem::DesertKeySmall02 => 256,
            FillerItem::DesertKeySmall03 => 257,
            FillerItem::DesertKeySmall04 => 258,
            FillerItem::DesertKeySmall05 => 259,
            FillerItem::TurtleKeySmall01 => 260,
            FillerItem::TurtleKeySmall02 => 261,
            FillerItem::TurtleKeySmall03 => 262,
            FillerItem::LoruleCastleKeySmall01 => 263,
            FillerItem::LoruleCastleKeySmall02 => 264,
            FillerItem::LoruleCastleKeySmall03 => 265,
            FillerItem::LoruleCastleKeySmall04 => 266,
            FillerItem::LoruleCastleKeySmall05 => 267,
            FillerItem::EasternCompass => 268,
            FillerItem::GalesCompass => 269,
            FillerItem::HeraCompass => 270,
            FillerItem::DarkCompass => 271,
            FillerItem::SwampCompass => 272,
            FillerItem::SkullCompass => 273,
            FillerItem::ThievesCompass => 274,
            FillerItem::IceCompass => 275,
            FillerItem::DesertCompass => 276,
            FillerItem::TurtleCompass => 277,
            FillerItem::LoruleCastleCompass => 278,
            FillerItem::HintGlasses => 279,
            FillerItem::RupeeGreen => 280,
            FillerItem::RupeeBlue => 281,
            FillerItem::RupeeRed => 282,
            FillerItem::MonsterTail => 283,
            FillerItem::MonsterHorn => 284,
            FillerItem::MonsterGuts => 285,
            FillerItem::HeartPiece01 => 286,
            FillerItem::HeartPiece02 => 287,
            FillerItem::HeartPiece03 => 288,
            FillerItem::HeartPiece04 => 289,
            FillerItem::HeartPiece05 => 290,
            FillerItem::HeartPiece06 => 291,
            FillerItem::HeartPiece07 => 292,
            FillerItem::HeartPiece08 => 293,
            FillerItem::HeartPiece09 => 294,
            FillerItem::HeartPiece10 => 295,
            FillerItem::HeartPiece11 => 296,
            FillerItem::HeartPiece12 => 297,
            FillerItem::HeartPiece13 => 298,
            FillerItem::HeartPiece14 => 299,
            FillerItem::HeartPiece15 => 300,
            FillerItem::HeartPiece16 => 301,
            FillerItem::HeartPiece17 => 302,
            FillerItem::HeartPiece18 => 303,
            FillerItem::HeartPiece19 => 304,
            FillerItem::HeartPiece20 => 305,
            FillerItem::HeartPiece21 => 306,
            FillerItem::HeartPiece22 => 307,
            FillerItem::HeartPiece23 => 308,
            FillerItem::HeartPiece24 => 309,
            FillerItem::HeartPiece25 => 310,
            FillerItem::HeartPiece26 => 311,
            FillerItem::HeartPiece27 => 312,
            FillerItem::HeartContainer01 => 313,
            FillerItem::HeartContainer02 => 314,
            FillerItem::HeartContainer03 => 315,
            FillerItem::HeartContainer04 => 316,
            FillerItem::HeartContainer05 => 317,
            FillerItem::HeartContainer06 => 318,
            FillerItem::HeartContainer07 => 319,
            FillerItem::HeartContainer08 => 320,
            FillerItem::HeartContainer09 => 321,
            FillerItem::HeartContainer10 => 322,
            FillerItem::BeeBadge => 323,
            FillerItem::Empty => 324,
            FillerItem::ScootFruit => 325,
            FillerItem::FoulFruit => 326,
            FillerItem::Shield => 327,
            FillerItem::GoldBee => 328,
            FillerItem::OpenSanctuaryDoors => 329,
            FillerItem::ShadyGuyTrigger => 330,
            FillerItem::BigBombFlower => 331,
            FillerItem::StylishWomansHouseOpen => 332,
            FillerItem::WomanRoofMaiamai => 333,
            FillerItem::SkullEyeRight => 334,
            FillerItem::SkullEyeLeft => 335,
            FillerItem::AccessPotionShop => 336,
            FillerItem::AccessMilkBar => 337,
            FillerItem::AccessHyruleBlacksmith => 338,
            FillerItem::AccessLoruleCastleField => 339,
            FillerItem::Yuga => 340,
            FillerItem::Triforce => 341,
        }
    }

    /// The tag at a position of the catalogue, if there is one.
    pub fn from_index(i: usize) -> (r: Option<FillerItem>)
        ensures
            i < ITEM_COUNT ==> r == Some(FillerItem::at(i as int)),
            i >= ITEM_COUNT ==> r is None,
    {
        match i {
            0 => Some(FillerItem::Bow01),
            1 => Some(FillerItem::Boomerang01),
            2 => Some(FillerItem::Hookshot01),
            3 => Some(FillerItem::Bombs01),
            4 => Some(FillerItem::FireRod01),
            5 => Some(FillerItem::IceRod01),
            6 => Some(FillerItem::Hammer01),
            7 => Some(FillerItem::SandRod01),
            8 => Some(FillerItem::TornadoRod01),
            9 => Some(FillerItem::RaviosBracelet01),
            10 => Some(FillerItem::RaviosBracelet02),
            11 => Some(FillerItem::Bell),
            12 => Some(FillerItem::StaminaScroll),
            13 => Some(FillerItem::BowOfLight),
            14 => Some(FillerItem::PegasusBoots),
            15 => Some(FillerItem::Flippers),
            16 => Some(FillerItem::HylianShield),
            17 => Some(FillerItem::PremiumMilk),
            18 => Some(FillerItem::SmoothGem),
            19 => Some(FillerItem::LetterInABottle),
            20 => Some(FillerItem::Lamp01),
            21 => Some(FillerItem::Net01),
            22 => Some(FillerItem::Pouch),
            23 => Some(FillerItem::Bottle01),
            24 => Some(FillerItem::Bottle02),
            25 => Some(FillerItem::Bottle03),
            26 => Some(FillerItem::Bottle04),
            27 => Some(FillerItem::Bottle05),
            28 => Some(FillerItem::Glove01),
            29 => Some(FillerItem::Glove02),
            30 => Some(FillerItem::Mail01),
            31 => Some(FillerItem::Mail02),
            32 => Some(FillerItem::OreYellow),
            33 => Some(FillerItem::OreGreen),
            34 => Some(FillerItem::OreBlue),
            35 => Some(FillerItem::OreRed),
            36 => Some(FillerItem::RupeePurple01),
            37 => Some(FillerItem::RupeePurple02),
            38 => Some(FillerItem::RupeePurple03),
            39 => Some(FillerItem::RupeePurple04),
            40 => Some(FillerItem::RupeePurple05),
            41 => Some(FillerItem::RupeePurple06),
            42 => Some(FillerItem::RupeePurple07),
            43 => Some(FillerItem::RupeePurple08),
            44 => Some(FillerItem::RupeePurple09),
            45 => Some(FillerItem::RupeePurple10),
            46 => Some(FillerItem::RupeePurple11),
            47 => Some(FillerItem::RupeePurple12),
            48 => Some(FillerItem::RupeePurple13),
            49 => Some(FillerItem::RupeePurple14),
            50 => Some(FillerItem::RupeePurple15),
            51 => Some(FillerItem::RupeePurple16),
            52 => Some(FillerItem::RupeePurple17),
            53 => Some(FillerItem::RupeePurple18),
            54 => Some(FillerItem::RupeeSilver01),
            55 => Some(FillerItem::RupeeSilver02),
            56 => Some(FillerItem::RupeeSilver03),
            57 => Some(FillerItem::RupeeSilver04),
            58 => Some(FillerItem::RupeeSilver05),
            59 => Some(FillerItem::RupeeSilver06),
            60 => Some(FillerItem::RupeeSilver07),
            61 => Some(FillerItem::RupeeSilver08),
            62 => Some(FillerItem::RupeeSilver09),
            63 => Some(FillerItem::RupeeSilver10),
            64 => Some(FillerItem::RupeeSilver11),
            65 => Some(FillerItem::RupeeSilver12),
            66 => Some(FillerItem::RupeeSilver13),
            67 => Some(FillerItem::RupeeSilver14),
            68 => Some(FillerItem::RupeeSilver15),
            69 => Some(FillerItem::RupeeSilver16),
            70 => Some(FillerItem::RupeeSilver17),
            71 => Some(FillerItem::RupeeSilver18),
            72 => Some(FillerItem::RupeeSilver19),
            73 => Some(FillerItem::RupeeSilver20),
            74 => Some(FillerItem::RupeeSilver21),
            75 => Some(FillerItem::RupeeSilver22),
            76 => Some(FillerItem::RupeeSilver23),
            77 => Some(FillerItem::RupeeSilver24),
            78 => Some(FillerItem::RupeeSilver25),
            79 => Some(FillerItem::RupeeSilver26),
            80 => Some(FillerItem::RupeeSilver27),
            81 => Some(FillerItem::RupeeSilver28),
            82 => Some(FillerItem::RupeeSilver29),
            83 => Some(FillerItem::RupeeSilver30),
            84 => Some(FillerItem::RupeeSilver31),
            85 => Some(FillerItem::RupeeSilver32),
            86 => Some(FillerItem::RupeeSilver33),
            87 => Some(FillerItem::RupeeSilver34),
            88 => Some(FillerItem::RupeeSilver35),
            89 => Some(FillerItem::RupeeSilver36),
            90 => Some(FillerItem::RupeeSilver37),
            91 => Some(FillerItem::RupeeSilver38),
            92 => Some(FillerItem::RupeeSilver39),
            93 => Some(FillerItem::RupeeSilver40),
            94 => Some(FillerItem::RupeeGold01),
            95 => Some(FillerItem::RupeeGold02),
            96 => Some(FillerItem::RupeeGold03),
            97 => Some(FillerItem::RupeeGold04),
            98 => Some(FillerItem::RupeeGold05),
            99 => Some(FillerItem::RupeeGold06),
            100 => Some(FillerItem::RupeeGold07),
            101 => Some(FillerItem::RupeeGold08),
            102 => Some(FillerItem::RupeeGold09),
            103 => Some(FillerItem::RupeeGold10),
            104 => Some(FillerItem::Maiamai001),
            105 => Some(FillerItem::Maiamai002),
            106 => Some(FillerItem::Maiamai003),
            107 => Some(FillerItem::Maiamai004),
            108 => Some(FillerItem::Maiamai005),
            109 => Some(FillerItem::Maiamai006),
            110 => Some(FillerItem::Maiamai007),
            111 => Some(FillerItem::Maiamai008),
            112 => Some(FillerItem::Maiamai009),
            113 => Some(FillerItem::Maiamai010),
            114 => Some(FillerItem::Maiamai011),
            115 => Some(FillerItem::Maiamai012),
            116 => Some(FillerItem::Maiamai013),
            117 => Some(FillerItem::Maiamai014),
            118 => Some(FillerItem::Maiamai015),
            119 => Some(FillerItem::Maiamai016),
            120 => Some(FillerItem::Maiamai017),
            121 => Some(FillerItem::Maiamai018),
            122 => Some(FillerItem::Maiamai019),
            123 => Some(FillerItem::Maiamai020),
            124 => Some(FillerItem::Maiamai021),
            125 => Some(FillerItem::Maiamai022),
            126 => Some(FillerItem::Maiamai023),
            127 => Some(FillerItem::Maiamai024),
            128 => Some(FillerItem::Maiamai025),
            129 => Some(FillerItem::Maiamai026),
            130 => Some(FillerItem::Maiamai027),
            131 => Some(FillerItem::Maiamai028),
            132 => Some(FillerItem::Maiamai029),
            133 => Some(FillerItem::Maiamai030),
            134 => Some(FillerItem::Maiamai031),
            135 => Some(FillerItem::Maiamai032),
            136 => Some(FillerItem::Maiamai033),
            137 => Some(FillerItem::Maiamai034),
            138 => Some(FillerItem::Maiamai035),
            139 => Some(FillerItem::Maiamai036),
            140 => Some(FillerItem::Maiamai037),
            141 => Some(FillerItem::Maiamai038),
            142 => Some(FillerItem::Maiamai039),
            143 => Some(FillerItem::Maiamai040),
            144 => Some(FillerItem::Maiamai041),
            145 => Some(FillerItem::Maiamai042),
            146 => Some(FillerItem::Maiamai043),
            147 => Some(FillerItem::Maiamai044),
            148 => Some(FillerItem::Maiamai045),
            149 => Some(FillerItem::Maiamai046),
            150 => Some(FillerItem::Maiamai047),
            151 => Some(FillerItem::Maiamai048),
            152 => Some(FillerItem::Maiamai049),
            153 => Some(FillerItem::Maiamai050),
            154 => Some(FillerItem::Maiamai051),
            155 => Some(FillerItem::Maiamai052),
            156 => Some(FillerItem::Maiamai053),
            157 => Some(FillerItem::Maiamai054),
            158 => Some(FillerItem::Maiamai055),
            159 => Some(FillerItem::Maiamai056),
            160 => Some(FillerItem::Maiamai057),
            161 => Some(FillerItem::Maiamai058),
            162 => Some(FillerItem::Maiamai059),
            163 => Some(FillerItem::Maiamai060),
            164 => Some(FillerItem::Maiamai061),
            165 => Some(FillerItem::Maiamai062),
            166 => Some(FillerItem::Maiamai063),
            167 => Some(FillerItem::Maiamai064),
            168 => Some(FillerItem::Maiamai065),
            169 => Some(FillerItem::Maiamai066),
            170 => Some(FillerItem::Maiamai067),
            171 => Some(FillerItem::Maiamai068),
            172 => Some(FillerItem::Maiamai069),
            173 => Some(FillerItem::Maiamai070),
            174 => Some(FillerItem::Maiamai071),
            175 => Some(FillerItem::Maiamai072),
            176 => Some(FillerItem::Maiamai073),
            177 => Some(FillerItem::Maiamai074),
            178 => Some(FillerItem::Maiamai075),
            179 => Some(FillerItem::Maiamai076),
            180 => Some(FillerItem::Maiamai077),
            181 => Some(FillerItem::Maiamai078),
            182 => Some(FillerItem::Maiamai079),
            183 => Some(FillerItem::Maiamai080),
            184 => Some(FillerItem::Maiamai081),
            185 => Some(FillerItem::Maiamai082),
            186 => Some(FillerItem::Maiamai083),
            187 => Some(FillerItem::Maiamai084),
            188 => Some(FillerItem::Maiamai085),
            189 => Some(FillerItem::Maiamai086),
            190 => Some(FillerItem::Maiamai087),
            191 => Some(FillerItem::Maiamai088),
            192 => Some(FillerItem::Maiamai089),
            193 => Some(FillerItem::Maiamai090),
            194 => Some(FillerItem::Maiamai091),
            195 => Some(FillerItem::Maiamai092),
            196 => Some(FillerItem::Maiamai093),
            197 => Some(FillerItem::Maiamai094),
            198 => Some(FillerItem::Maiamai095),
            199 => Some(FillerItem::Maiamai096),
            200 => Some(FillerItem::Maiamai097),
            201 => Some(FillerItem::Maiamai098),
            202 => Some(FillerItem::Maiamai099),
            203 => Some(FillerItem::Maiamai100),
            204 => Some(FillerItem::Sword01),
            205 => Some(FillerItem::Sword02),
            206 => Some(FillerItem::Sword03),
            207 => Some(FillerItem::Sword04),
            208 => Some(FillerItem::Lamp02),
            209 => Some(FillerItem::Net02),
            210 => Some(FillerItem::PendantOfCourage),
            211 => Some(FillerItem::PendantOfWisdom),
            212 => Some(FillerItem::PendantOfPower),
            213 => Some(FillerItem::SageGulley),
            214 => Some(FillerItem::SageOren),
            215 => Some(FillerItem::SageSeres),
            216 => Some(FillerItem::SageOsfala),
            217 => Some(FillerItem::SageImpa),
            218 => Some(FillerItem::SageIrene),
            219 => Some(FillerItem::SageRosso),
            220 => Some(FillerItem::EasternKeyBig),
            221 => Some(FillerItem::GalesKeyBig),
            222 => Some(FillerItem::HeraKeyBig),
            223 => Some(FillerItem::DarkKeyBig),
            224 => Some(FillerItem::SwampKeyBig),
            225 => Some(FillerItem::SkullKeyBig),
            226 => Some(FillerItem::ThievesKeyBig),
            227 => Some(FillerItem::IceKeyBig),
            228 => Some(FillerItem::DesertKeyBig),
            229 => Some(FillerItem::TurtleKeyBig),
            230 => Some(FillerItem::HyruleSanctuaryKey),
            231 => Some(FillerItem::LoruleSanctuaryKey),
            232 => Some(FillerItem::EasternKeySmall01),
            233 => Some(FillerItem::EasternKeySmall02),
            234 => Some(FillerItem::GalesKeySmall01),
            235 => Some(FillerItem::GalesKeySmall02),
            236 => Some(FillerItem::GalesKeySmall03),
            237 => Some(FillerItem::GalesKeySmall04),
            238 => Some(FillerItem::HeraKeySmall01),
            239 => Some(FillerItem::HeraKeySmall02),
            240 => Some(FillerItem::DarkKeySmall01),
            241 => Some(FillerItem::DarkKeySmall02),
            242 => Some(FillerItem::DarkKeySmall03),
            243 => Some(FillerItem::DarkKeySmall04),
            244 => Some(FillerItem::SwampKeySmall01),
            245 => Some(FillerItem::SwampKeySmall02),
            246 => Some(FillerItem::SwampKeySmall03),
            247 => Some(FillerItem::SwampKeySmall04),
            248 => Some(FillerItem::SkullKeySmall01),
            249 => Some(FillerItem::SkullKeySmall02),
            250 => Some(FillerItem::SkullKeySmall03),
            251 => Some(FillerItem::ThievesKeySmall),
            252 => Some(FillerItem::IceKeySmall01),
            253 => Some(FillerItem::IceKeySmall02),
            254 => Some(FillerItem::IceKeySmall03),
            255 => Some(FillerItem::DesertKeySmall01),
            256 => Some(FillerItem::DesertKeySmall02),
            257 => Some(FillerItem::DesertKeySmall03),
            258 => Some(FillerItem::DesertKeySmall04),
            259 => Some(FillerItem::DesertKeySmall05),
            260 => Some(FillerItem::TurtleKeySmall01),
            261 => Some(FillerItem::TurtleKeySmall02),
            262 => Some(FillerItem::TurtleKeySmall03),
            263 => Some(FillerItem::LoruleCastleKeySmall01),
            264 => Some(FillerItem::LoruleCastleKeySmall02),
            265 => Some(FillerItem::LoruleCastleKeySmall03),
            266 => Some(FillerItem::LoruleCastleKeySmall04),
            267 => Some(FillerItem::LoruleCastleKeySmall05),
            268 => Some(FillerItem::EasternCompass),
            269 => Some(FillerItem::GalesCompass),
            270 => Some(FillerItem::HeraCompass),
            271 => Some(FillerItem::DarkCompass),
            272 => Some(FillerItem::SwampCompass),
            273 => Some(FillerItem::SkullCompass),
            274 => Some(FillerItem::ThievesCompass),
            275 => Some(FillerItem::IceCompass),
            276 => Some(FillerItem::DesertCompass),
            277 => Some(FillerItem::TurtleCompass),
            278 => Some(FillerItem::LoruleCastleCompass),
            279 => Some(FillerItem::HintGlasses),
            280 => Some(FillerItem::RupeeGreen),
            281 => Some(FillerItem::RupeeBlue),
            282 => Some(FillerItem::RupeeRed),
            283 => Some(FillerItem::MonsterTail),
            284 => Some(FillerItem::MonsterHorn),
            285 => Some(FillerItem::MonsterGuts),
            286 => Some(FillerItem::HeartPiece01),
            287 => Some(FillerItem::HeartPiece02),
            288 => Some(FillerItem::HeartPiece03),
            289 => Some(FillerItem::HeartPiece04),
            290 => Some(FillerItem::HeartPiece05),
            291 => Some(FillerItem::HeartPiece06),
            292 => Some(FillerItem::HeartPiece07),
            293 => Some(FillerItem::HeartPiece08),
            294 => Some(FillerItem::HeartPiece09),
            295 => Some(FillerItem::HeartPiece10),
            296 => Some(FillerItem::HeartPiece11),
            297 => Some(FillerItem::HeartPiece12),
            298 => Some(FillerItem::HeartPiece13),
            299 => Some(FillerItem::HeartPiece14),
            300 => Some(FillerItem::HeartPiece15),
            301 => Some(FillerItem::HeartPiece16),
            302 => Some(FillerItem::HeartPiece17),
            303 => Some(FillerItem::HeartPiece18),
            304 => Some(FillerItem::HeartPiece19),
            305 => Some(FillerItem::HeartPiece20),
            306 => Some(FillerItem::HeartPiece21),
            307 => Some(FillerItem::HeartPiece22),
            308 => Some(FillerItem::HeartPiece23),
            309 => Some(FillerItem::HeartPiece24),
            310 => Some(FillerItem::HeartPiece25),
            311 => Some(FillerItem::HeartPiece26),
            312 => Some(FillerItem::HeartPiece27),
            313 => Some(FillerItem::HeartContainer01),
            314 => Some(FillerItem::HeartContainer02),
            315 => Some(FillerItem::HeartContainer03),
            316 => Some(FillerItem::HeartContainer04),
            317 => Some(FillerItem::HeartContainer05),
            318 => Some(FillerItem::HeartContainer06),
            319 => Some(FillerItem::HeartContainer07),
            320 => Some(FillerItem::HeartContainer08),
            321 => Some(FillerItem::HeartContainer09),
            322 => Some(FillerItem::HeartContainer10),
            323 => Some(FillerItem::BeeBadge),
            324 => Some(FillerItem::Empty),
            325 => Some(FillerItem::ScootFruit),
            326 => Some(FillerItem::FoulFruit),
            327 => Some(FillerItem::Shield),
            328 => Some(FillerItem::GoldBee),
            329 => Some(FillerItem::OpenSanctuaryDoors),
            330 => Some(FillerItem::ShadyGuyTrigger),
            331 => Some(FillerItem::BigBombFlower),
            332 => Some(FillerItem::StylishWomansHouseOpen),
            333 => Some(FillerItem::WomanRoofMaiamai),
            334 => Some(FillerItem::SkullEyeRight),
            335 => Some(FillerItem::SkullEyeLeft),
            336 => Some(FillerItem::AccessPotionShop),
            337 => Some(FillerItem::AccessMilkBar),
            338 => Some(FillerItem::AccessHyruleBlacksmith),
            339 => Some(FillerItem::AccessLoruleCastleField),
            340 => Some(FillerItem::Yuga),
            341 => Some(FillerItem::Triforce),
            _ => None,
        }
    }

    /// A tag is found again from its position.
    pub proof fn lemma_at_position(self)
        ensures
            0 <= self.position() < ITEM_COUNT,
            FillerItem::at(self.position()) == self,
    {
    }

    proof fn lemma_position_at_0(i: int)
        requires
            0 <= i < 38,
        ensures
            FillerItem::at(i).position() == i,
    {
    }

    proof fn lemma_position_at_1(i: int)
        requires
            38 <= i < 76,
        ensures
            FillerItem::at(i).position() == i,
    {
    }

    proof fn lemma_position_at_2(i: int)
        requires
            76 <= i < 114,
        ensures
            FillerItem::at(i).position() == i,
    {
    }

    proof fn lemma_position_at_3(i: int)
        requires
            114 <= i < 152,
        ensures
            FillerItem::at(i).position() == i,
    {
    }

    proof fn lemma_position_at_4(i: int)
        requires
            152 <= i < 190,
        ensures
            FillerItem::at(i).position() == i,
    {
    }

    proof fn lemma_position_at_5(i: int)
        requires
            190 <= i < 228,
        ensures
            FillerItem::at(i).position() == i,
    {
    }

    proof fn lemma_position_at_6(i: int)
        requires
            228 <= i < 266,
        ensures
            FillerItem::at(i).position() == i,
    {
    }

    proof fn lemma_position_at_7(i: int)
        requires
            266 <= i < 304,
        ensures
            FillerItem::at(i).position() == i,
    {
    }

    proof fn lemma_position_at_8(i: int)
        requires
            304 <= i < 342,
        ensures
            FillerItem::at(i).position() == i,
    {
    }

    /// A position of the catalogue is found again from its tag.
    pub proof fn lemma_position_at(i: int)
        requires
            0 <= i < ITEM_COUNT,
        ensures
            FillerItem::at(i).position() == i,
    {
        if i < 38 {
            Self::lemma_position_at_0(i);
        } else if i < 76 {
            Self::lemma_position_at_1(i);
        } else if i < 114 {
            Self::lemma_position_at_2(i);
        } else if i < 152 {
            Self::lemma_position_at_3(i);
        } else if i < 190 {
            Self::lemma_position_at_4(i);
        } else if i < 228 {
            Self::lemma_position_at_5(i);
        } else if i < 266 {
            Self::lemma_position_at_6(i);
        } else if i < 304 {
            Self::lemma_position_at_7(i);
        } else {
            Self::lemma_position_at_8(i);
        }
    }
}

/// The first position of each run of tags that the pools are made of.
pub const FIRST_PURPLE_RUPEE: usize = 36;

pub const FIRST_SILVER_RUPEE: usize = 54;

pub const FIRST_GOLD_RUPEE: usize = 94;

pub const FIRST_MAIAMAI: usize = 104;

pub const FIRST_SWORD: usize = 204;

pub const FIRST_UPGRADE: usize = 208;

pub const FIRST_PRIZE: usize = 210;

pub const FIRST_BIG_KEY: usize = 220;

pub const FIRST_SMALL_KEY: usize = 230;

pub const FIRST_COMPASS: usize = 268;

pub const FIRST_TRASH: usize = 279;

pub const FIRST_HEART_PIECE: usize = 286;

pub const FIRST_QUEST: usize = 325;

/// A dungeon that keeps its keys and its compass among its own checks.
#[derive(Clone, Copy, Debug, PartialEq, Eq, Hash, Structural)]
pub enum Dungeon {
    HyruleSanctuary,
    LoruleSanctuary,
    EasternPalace,
    HouseOfGales,
    TowerOfHera,
    DarkPalace,
    SwampPalace,
    SkullWoods,
    ThievesHideout,
    IceRuins,
    DesertPalace,
    TurtleRock,
    LoruleCastle,
}

impl Dungeon {
    /// The bracketed tag with which the names of the dungeon's checks begin.
    pub open spec fn tag(self) -> Seq<char> {
        match self {
            Dungeon::HyruleSanctuary => "[HS]"@,
            Dungeon::LoruleSanctuary => "[LS]"@,
            Dungeon::EasternPalace => "[EP]"@,
            Dungeon::HouseOfGales => "[HG]"@,
            Dungeon::TowerOfHera => "[TH]"@,
            Dungeon::DarkPalace => "[PD]"@,
            Dungeon::SwampPalace => "[SP]"@,
            Dungeon::SkullWoods => "[SW]"@,
            Dungeon::ThievesHideout => "[T'H]"@,
            Dungeon::IceRuins => "[IR]"@,
            Dungeon::DesertPalace => "[DP]"@,
            Dungeon::TurtleRock => "[TR]"@,
            Dungeon::LoruleCastle => "[LC]"@,
        }
    }

    /// The bracketed tag with which the names of the dungeon's checks begin.
    pub fn prefix(self) -> (r: &'static str)
        ensures
            r@ == self.tag(),
    {
        match self {
            Dungeon::HyruleSanctuary => "[HS]",
            Dungeon::LoruleSanctuary => "[LS]",
            Dungeon::EasternPalace => "[EP]",
            Dungeon::HouseOfGales => "[HG]",
            Dungeon::TowerOfHera => "[TH]",
            Dungeon::DarkPalace => "[PD]",
            Dungeon::SwampPalace => "[SP]",
            Dungeon::SkullWoods => "[SW]",
            Dungeon::ThievesHideout => "[T'H]",
            Dungeon::IceRuins => "[IR]",
            Dungeon::DesertPalace => "[DP]",
            Dungeon::TurtleRock => "[TR]",
            Dungeon::LoruleCastle => "[LC]",
        }
    }
}

impl FillerItem {
    /// Whether the tag is one of the ten dungeon prizes.
    pub open spec fn dungeon_prize(self) -> bool {
        FIRST_PRIZE <= self.position() < FIRST_BIG_KEY
    }

    /// Whether the tag is a key or a compass.
    pub open spec fn dungeon_local(self) -> bool {
        FIRST_BIG_KEY <= self.position() < FIRST_TRASH
    }

    /// Whether the tag can open a path or a check: everything that is neither
    /// filler nor bound to its place by the world.
    pub open spec fn progression(self) -> bool {
        self.position() < FIRST_TRASH
    }

    /// Whether the tag is filler.
    pub open spec fn trash(self) -> bool {
        FIRST_TRASH <= self.position() < FIRST_QUEST
    }

    /// The dungeon that a key or a compass belongs to.
    pub open spec fn dungeon(self) -> Option<Dungeon> {
        match self {
            FillerItem::HyruleSanctuaryKey => Some(Dungeon::HyruleSanctuary),
            FillerItem::LoruleSanctuaryKey => Some(Dungeon::LoruleSanctuary),
            FillerItem::EasternCompass
            | FillerItem::EasternKeyBig
            | FillerItem::EasternKeySmall01
            | FillerItem::EasternKeySmall02 => Some(Dungeon::EasternPalace),
            FillerItem::GalesCompass
            | FillerItem::GalesKeyBig
            | FillerItem::GalesKeySmall01
            | FillerItem::GalesKeySmall02
            | FillerItem::GalesKeySmall03
            | FillerItem::GalesKeySmall04 => Some(Dungeon::HouseOfGales),
            FillerItem::HeraCompass
            | FillerItem::HeraKeyBig
            | FillerItem::HeraKeySmall01
            | FillerItem::HeraKeySmall02 => Some(Dungeon::TowerOfHera),
            FillerItem::DarkCompass
            | FillerItem::DarkKeyBig
            | FillerItem::DarkKeySmall01
            | FillerItem::DarkKeySmall02
            | FillerItem::DarkKeySmall03
            | FillerItem::DarkKeySmall04 => Some(Dungeon::DarkPalace),
            FillerItem::SwampCompass
            | FillerItem::SwampKeyBig
            | FillerItem::SwampKeySmall01
            | FillerItem::SwampKeySmall02
            | FillerItem::SwampKeySmall03
            | FillerItem::SwampKeySmall04 => Some(Dungeon::SwampPalace),
            FillerItem::SkullCompass
            | FillerItem::SkullKeyBig
            | FillerItem::SkullKeySmall01
            | FillerItem::SkullKeySmall02
            | FillerItem::SkullKeySmall03 => Some(Dungeon::SkullWoods),
            FillerItem::ThievesCompass
            | FillerItem::ThievesKeyBig
            | FillerItem::ThievesKeySmall => Some(Dungeon::ThievesHideout),
            FillerItem::IceCompass
            | FillerItem::IceKeyBig
            | FillerItem::IceKeySmall01
            | FillerItem::IceKeySmall02
            | FillerItem::IceKeySmall03 => Some(Dungeon::IceRuins),
            FillerItem::DesertCompass
            | FillerItem::DesertKeyBig
            | FillerItem::DesertKeySmall01
            | FillerItem::DesertKeySmall02
            | FillerItem::DesertKeySmall03
            | FillerItem::DesertKeySmall04
            | FillerItem::DesertKeySmall05 => Some(Dungeon::DesertPalace),
            FillerItem::TurtleCompass
            | FillerItem::TurtleKeyBig
            | FillerItem::TurtleKeySmall01
            | FillerItem::TurtleKeySmall02
            | FillerItem::TurtleKeySmall03 => Some(Dungeon::TurtleRock),
            FillerItem::LoruleCastleCompass
            | FillerItem::LoruleCastleKeySmall01
            | FillerItem::LoruleCastleKeySmall02
            | FillerItem::LoruleCastleKeySmall03
            | FillerItem::LoruleCastleKeySmall04
            | FillerItem::LoruleCastleKeySmall05 => Some(Dungeon::LoruleCastle),
            _ => None,
        }
    }

    /// The keys and compasses are exactly the tags that have a dungeon.
    pub proof fn lemma_dungeon_local(self)
        ensures
            self.dungeon_local() <==> self.dungeon() is Some,
    {
    }
}

/// Whether the item is one of the ten dungeon prizes.
pub fn is_dungeon_prize(item: FillerItem) -> (r: bool)
    ensures
        r == item.dungeon_prize(),
{
    match item {
        FillerItem::PendantOfPower
        | FillerItem::PendantOfWisdom
        | FillerItem::PendantOfCourage
        | FillerItem::SageGulley
        | FillerItem::SageOren
        | FillerItem::SageSeres
        | FillerItem::SageOsfala
        | FillerItem::SageImpa
        | FillerItem::SageIrene
        | FillerItem::SageRosso => true,
        _ => false,
    }
}

/// The dungeon that a key or a compass belongs to; `None` for any other item.
pub fn dungeon_of(item: FillerItem) -> (r: Option<Dungeon>)
    ensures
        r == item.dungeon(),
{
    match item {
        FillerItem::HyruleSanctuaryKey => Some(Dungeon::HyruleSanctuary),
        FillerItem::LoruleSanctuaryKey => Some(Dungeon::LoruleSanctuary),
        FillerItem::EasternCompass
        | FillerItem::EasternKeyBig
        | FillerItem::EasternKeySmall01
        | FillerItem::EasternKeySmall02 => Some(Dungeon::EasternPalace),
        FillerItem::GalesCompass
        | FillerItem::GalesKeyBig
        | FillerItem::GalesKeySmall01
        | FillerItem::GalesKeySmall02
        | FillerItem::GalesKeySmall03
        | FillerItem::GalesKeySmall04 => Some(Dungeon::HouseOfGales),
        FillerItem::HeraCompass
        | FillerItem::HeraKeyBig
        | FillerItem::HeraKeySmall01
        | FillerItem::HeraKeySmall02 => Some(Dungeon::TowerOfHera),
        FillerItem::DarkCompass
        | FillerItem::DarkKeyBig
        | FillerItem::DarkKeySmall01
        | FillerItem::DarkKeySmall02
        | FillerItem::DarkKeySmall03
        | FillerItem::DarkKeySmall04 => Some(Dungeon::DarkPalace),
        FillerItem::SwampCompass
        | FillerItem::SwampKeyBig
        | FillerItem::SwampKeySmall01
        | FillerItem::SwampKeySmall02
        | FillerItem::SwampKeySmall03
        | FillerItem::SwampKeySmall04 => Some(Dungeon::SwampPalace),
        FillerItem::SkullCompass
        | FillerItem::SkullKeyBig
        | FillerItem::SkullKeySmall01
        | FillerItem::SkullKeySmall02
        | FillerItem::SkullKeySmall03 => Some(Dungeon::SkullWoods),
        FillerItem::ThievesCompass
        | FillerItem::ThievesKeyBig
        | FillerItem::ThievesKeySmall => Some(Dungeon::ThievesHideout),
        FillerItem::IceCompass
        | FillerItem::IceKeyBig
        | FillerItem::IceKeySmall01
        | FillerItem::IceKeySmall02
        | FillerItem::IceKeySmall03 => Some(Dungeon::IceRuins),
        FillerItem::DesertCompass
        | FillerItem::DesertKeyBig
        | FillerItem::DesertKeySmall01
        | FillerItem::DesertKeySmall02
        | FillerItem::DesertKeySmall03
        | FillerItem::DesertKeySmall04
        | FillerItem::DesertKeySmall05 => Some(Dungeon::DesertPalace),
        FillerItem::TurtleCompass
        | FillerItem::TurtleKeyBig
        | FillerItem::TurtleKeySmall01
        | FillerItem::TurtleKeySmall02
        | FillerItem::TurtleKeySmall03 => Some(Dungeon::TurtleRock),
        FillerItem::LoruleCastleCompass
        | FillerItem::LoruleCastleKeySmall01
        | FillerItem::LoruleCastleKeySmall02
        | FillerItem::LoruleCastleKeySmall03
        | FillerItem::LoruleCastleKeySmall04
        | FillerItem::LoruleCastleKeySmall05 => Some(Dungeon::LoruleCastle),
        _ => None,
    }
}

/// Whether the item is a key or a compass, which stays in its own dungeon.
pub fn is_dungeon_item(item: FillerItem) -> (r: bool)
    ensures
        r == item.dungeon_local(),
        r == item.dungeon() is Some,
{
    proof {
        item.lemma_dungeon_local();
    }
    dungeon_of(item).is_some()
}

/// Whether the item is a key or the compass of the given dungeon.
pub fn is_dungeon_local(item: FillerItem, dungeon: Dungeon) -> (r: bool)
    ensures
        r == (item.dungeon() == Some(dungeon)),
{
    match dungeon_of(item) {
        Some(home) => home == dungeon,
        None => false,
    }
}

/// Whether the item is filler.
pub fn is_trash(item: FillerItem) -> (r: bool)
    ensures
        r == item.trash(),
{
    let i: usize = item.index();
    FIRST_TRASH <= i && i < FIRST_QUEST
}

/// Whether the item can open a path or a check.
pub fn is_progression(item: FillerItem) -> (r: bool)
    ensures
        r == item.progression(),
{
    item.index() < FIRST_TRASH
}

} // verus!
