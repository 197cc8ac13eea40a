//! Biome resolution and climate lookup.
//!
//! Raw biome identifiers come in two historical encodings: namespaced
//! string names, and legacy signed numeric codes used before the world
//! format moved to names. Both resolve totally: every identifier, known
//! or not, maps to exactly one [`Biome`] variant.

use vstd::prelude::*;

use crate::strings::str_eq;

verus! {

/// Closed set of known terrain/climate categories, plus the catch-all
/// `Unknown` variant that every unrecognized identifier resolves to.
#[derive(Clone, Copy, Debug, PartialEq, Eq, Structural)]
pub enum Biome {
    Ocean,
    Forest,
    River,
    FrozenOcean,
    FrozenRiver,
    Beach,
    DeepOcean,
    StoneShore,
    SnowyBeach,
    WarmOcean,
    LukewarmOcean,
    ColdOcean,
    DeepWarmOcean,
    DeepLukewarmOcean,
    DeepColdOcean,
    DeepFrozenOcean,
    WoodedHills,
    FlowerForest,
    BirchForest,
    BirchForestHills,
    TallBirchForest,
    TallBirchHills,
    DarkForest,
    DarkForestHills,
    Jungle,
    JungleHills,
    ModifiedJungle,
    JungleEdge,
    ModifiedJungleEdge,
    BambooJungle,
    BambooJungleHills,
    Taiga,
    TaigaHills,
    TaigaMountains,
    SnowyTaiga,
    SnowyTaigaHills,
    SnowyTaigaMountains,
    GiantTreeTaiga,
    GiantTreeTaigaHills,
    GiantSpruceTaiga,
    GiantSpruceTaigaHills,
    MushroomFields,
    MushroomFieldShore,
    Swamp,
    SwampHills,
    Savanna,
    SavannaPlateau,
    ShatteredSavanna,
    ShatteredSavannaPlateau,
    Plains,
    SunflowerPlains,
    Desert,
    DesertHills,
    DesertLakes,
    SnowyTundra,
    SnowyMountains,
    IceSpikes,
    Mountains,
    WoodedMountains,
    GravellyMountains,
    ModifiedGravellyMountains,
    MountainEdge,
    Badlands,
    BadlandsPlateau,
    ModifiedBadlandsPlateau,
    WoodedBadlandsPlateau,
    ModifiedWoodedBadlandsPlateau,
    ErodedBadlands,
    Nether,
    TheEnd,
    SmallEndIslands,
    EndMidlands,
    EndHighlands,
    EndBarrens,
    SoulSandValley,
    CrimsonForest,
    WarpedForest,
    TheVoid,
    BasaltDeltas,
    DripstoneCaves,
    FrozenPeaks,
    Grove,
    JaggedPeaks,
    LushCaves,
    Meadow,
    NetherWastes,
    OldGrowthBirchForest,
    OldGrowthPineTaiga,
    OldGrowthSpruceTaiga,
    SnowyPlains,
    SnowySlopes,
    SparseJungle,
    StonyPeaks,
    StonyShore,
    WindsweptForest,
    WindsweptGravellyHills,
    WindsweptHills,
    WindsweptSavanna,
    WoodedBadlands,
    MangroveSwamp,
    DeepDark,
    Unknown,
}

/// A biome's fixed climate. Temperature and rainfall are given in
/// hundredths of the game's unit: a `temperature` of 80 stands for a
/// temperature of 0.8, and -70 for -0.7.
#[derive(Clone, Copy, Debug, PartialEq, Eq, Structural)]
pub struct Climate {
    pub temperature: i32,
    pub rainfall: i32,
}

/// The name table: the variant that a namespaced biome name resolves to.
/// Matching is exact and case-sensitive; names outside the table, and
/// strings without the `minecraft:` namespace, resolve to `Unknown`.
pub open spec fn biome_of_name(s: Seq<char>) -> Biome {
    if s == "minecraft:badlands"@ {
        Biome::Badlands
    } else if s == "minecraft:bamboo_jungle"@ {
        Biome::BambooJungle
    } else if s == "minecraft:basalt_deltas"@ {
        Biome::BasaltDeltas
    } else if s == "minecraft:beach"@ {
        Biome::Beach
    } else if s == "minecraft:birch_forest"@ {
        Biome::BirchForest
    } else if s == "minecraft:cold_ocean"@ {
        Biome::ColdOcean
    } else if s == "minecraft:crimson_forest"@ {
        Biome::CrimsonForest
    } else if s == "minecraft:dark_forest"@ {
        Biome::DarkForest
    } else if s == "minecraft:deep_cold_ocean"@ {
        Biome::DeepColdOcean
    } else if s == "minecraft:deep_frozen_ocean"@ {
        Biome::DeepFrozenOcean
    } else if s == "minecraft:deep_lukewarm_ocean"@ {
        Biome::DeepLukewarmOcean
    } else if s == "minecraft:deep_ocean"@ {
        Biome::DeepOcean
    } else if s == "minecraft:desert"@ {
        Biome::Desert
    } else if s == "minecraft:dripstone_caves"@ {
        Biome::DripstoneCaves
    } else if s == "minecraft:end_barrens"@ {
        Biome::EndBarrens
    } else if s == "minecraft:end_highlands"@ {
        Biome::EndHighlands
    } else if s == "minecraft:end_midlands"@ {
        Biome::EndMidlands
    } else if s == "minecraft:eroded_badlands"@ {
        Biome::ErodedBadlands
    } else if s == "minecraft:flower_forest"@ {
        Biome::FlowerForest
    } else if s == "minecraft:forest"@ {
        Biome::Forest
    } else if s == "minecraft:frozen_ocean"@ {
        Biome::FrozenOcean
    } else if s == "minecraft:frozen_peaks"@ {
        Biome::FrozenPeaks
    } else if s == "minecraft:frozen_river"@ {
        Biome::FrozenRiver
    } else if s == "minecraft:grove"@ {
        Biome::Grove
    } else if s == "minecraft:ice_spikes"@ {
        Biome::IceSpikes
    } else if s == "minecraft:jagged_peaks"@ {
        Biome::JaggedPeaks
    } else if s == "minecraft:jungle"@ {
        Biome::Jungle
    } else if s == "minecraft:lukewarm_ocean"@ {
        Biome::LukewarmOcean
    } else if s == "minecraft:lush_caves"@ {
        Biome::LushCaves
    } else if s == "minecraft:meadow"@ {
        Biome::Meadow
    } else if s == "minecraft:mushroom_fields"@ {
        Biome::MushroomFields
    } else if s == "minecraft:nether_wastes"@ {
        Biome::NetherWastes
    } else if s == "minecraft:ocean"@ {
        Biome::Ocean
    } else if s == "minecraft:old_growth_birch_forest"@ {
        Biome::OldGrowthBirchForest
    } else if s == "minecraft:old_growth_pine_taiga"@ {
        Biome::OldGrowthPineTaiga
    } else if s == "minecraft:old_growth_spruce_taiga"@ {
        Biome::OldGrowthSpruceTaiga
    } else if s == "minecraft:plains"@ {
        Biome::Plains
    } else if s == "minecraft:river"@ {
        Biome::River
    } else if s == "minecraft:savanna"@ {
        Biome::Savanna
    } else if s == "minecraft:savanna_plateau"@ {
        Biome::SavannaPlateau
    } else if s == "minecraft:small_end_islands"@ {
        Biome::SmallEndIslands
    } else if s == "minecraft:snowy_beach"@ {
        Biome::SnowyBeach
    } else if s == "minecraft:snowy_plains"@ {
        Biome::SnowyPlains
    } else if s == "minecraft:snowy_slopes"@ {
        Biome::SnowySlopes
    } else if s == "minecraft:snowy_taiga"@ {
        Biome::SnowyTaiga
    } else if s == "minecraft:soul_sand_valley"@ {
        Biome::SoulSandValley
    } else if s == "minecraft:sparse_jungle"@ {
        Biome::SparseJungle
    } else if s == "minecraft:stony_peaks"@ {
        Biome::StonyPeaks
    } else if s == "minecraft:stony_shore"@ {
        Biome::StonyShore
    } else if s == "minecraft:sunflower_plains"@ {
        Biome::SunflowerPlains
    } else if s == "minecraft:swamp"@ {
        Biome::Swamp
    } else if s == "minecraft:taiga"@ {
        Biome::Taiga
    } else if s == "minecraft:the_end"@ {
        Biome::TheEnd
    } else if s == "minecraft:the_void"@ {
        Biome::TheVoid
    } else if s == "minecraft:warm_ocean"@ {
        Biome::WarmOcean
    } else if s == "minecraft:warped_forest"@ {
        Biome::WarpedForest
    } else if s == "minecraft:windswept_forest"@ {
        Biome::WindsweptForest
    } else if s == "minecraft:windswept_gravelly_hills"@ {
        Biome::WindsweptGravellyHills
    } else if s == "minecraft:windswept_hills"@ {
        Biome::WindsweptHills
    } else if s == "minecraft:windswept_savanna"@ {
        Biome::WindsweptSavanna
    } else if s == "minecraft:wooded_badlands"@ {
        Biome::WoodedBadlands
    } else if s == "minecraft:mangrove_swamp"@ {
        Biome::MangroveSwamp
    } else if s == "minecraft:deep_dark"@ {
        Biome::DeepDark
    } else {
        Biome::Unknown
    }
}

/// The sparse legacy-code table: the stable numeric code of each variant
/// that predates the retirement of numeric biome identifiers. Variants
/// added after that, and `Unknown`, carry no code.
pub open spec fn legacy_code_of(b: Biome) -> Option<i32> {
    match b {
        Biome::Ocean => Some(0),
        Biome::Forest => Some(4),
        Biome::River => Some(7),
        Biome::FrozenOcean => Some(10),
        Biome::FrozenRiver => Some(11),
        Biome::Beach => Some(16),
        Biome::DeepOcean => Some(24),
        Biome::StoneShore => Some(25),
        Biome::SnowyBeach => Some(26),
        Biome::WarmOcean => Some(44),
        Biome::LukewarmOcean => Some(45),
        Biome::ColdOcean => Some(46),
        Biome::DeepWarmOcean => Some(47),
        Biome::DeepLukewarmOcean => Some(48),
        Biome::DeepColdOcean => Some(49),
        Biome::DeepFrozenOcean => Some(50),
        Biome::WoodedHills => Some(18),
        Biome::FlowerForest => Some(132),
        Biome::BirchForest => Some(27),
        Biome::BirchForestHills => Some(28),
        Biome::TallBirchForest => Some(155),
        Biome::TallBirchHills => Some(156),
        Biome::DarkForest => Some(29),
        Biome::DarkForestHills => Some(157),
        Biome::Jungle => Some(21),
        Biome::JungleHills => Some(22),
        Biome::ModifiedJungle => Some(149),
        Biome::JungleEdge => Some(23),
        Biome::ModifiedJungleEdge => Some(151),
        Biome::BambooJungle => Some(168),
        Biome::BambooJungleHills => Some(169),
        Biome::Taiga => Some(5),
        Biome::TaigaHills => Some(19),
        Biome::TaigaMountains => Some(133),
        Biome::SnowyTaiga => Some(30),
        Biome::SnowyTaigaHills => Some(31),
        Biome::SnowyTaigaMountains => Some(158),
        Biome::GiantTreeTaiga => Some(32),
        Biome::GiantTreeTaigaHills => Some(33),
        Biome::GiantSpruceTaiga => Some(160),
        Biome::GiantSpruceTaigaHills => Some(161),
        Biome::MushroomFields => Some(14),
        Biome::MushroomFieldShore => Some(15),
        Biome::Swamp => Some(6),
        Biome::SwampHills => Some(134),
        Biome::Savanna => Some(35),
        Biome::SavannaPlateau => Some(36),
        Biome::ShatteredSavanna => Some(163),
        Biome::ShatteredSavannaPlateau => Some(164),
        Biome::Plains => Some(1),
        Biome::SunflowerPlains => Some(129),
        Biome::Desert => Some(2),
        Biome::DesertHills => Some(17),
        Biome::DesertLakes => Some(130),
        Biome::SnowyTundra => Some(12),
        Biome::SnowyMountains => Some(13),
        Biome::IceSpikes => Some(140),
        Biome::Mountains => Some(3),
        Biome::WoodedMountains => Some(34),
        Biome::GravellyMountains => Some(131),
        Biome::ModifiedGravellyMountains => Some(162),
        Biome::MountainEdge => Some(20),
        Biome::Badlands => Some(37),
        Biome::BadlandsPlateau => Some(39),
        Biome::ModifiedBadlandsPlateau => Some(167),
        Biome::WoodedBadlandsPlateau => Some(38),
        Biome::ModifiedWoodedBadlandsPlateau => Some(166),
        Biome::ErodedBadlands => Some(165),
        Biome::Nether => Some(8),
        Biome::TheEnd => Some(9),
        Biome::SmallEndIslands => Some(40),
        Biome::EndMidlands => Some(41),
        Biome::EndHighlands => Some(42),
        Biome::EndBarrens => Some(43),
        Biome::SoulSandValley => Some(170),
        Biome::CrimsonForest => Some(171),
        Biome::WarpedForest => Some(172),
        Biome::TheVoid => Some(127),
        Biome::BasaltDeltas => Some(173),
        Biome::DripstoneCaves => None,
        Biome::FrozenPeaks => None,
        Biome::Grove => None,
        Biome::JaggedPeaks => None,
        Biome::LushCaves => None,
        Biome::Meadow => None,
        Biome::NetherWastes => None,
        Biome::OldGrowthBirchForest => None,
        Biome::OldGrowthPineTaiga => None,
        Biome::OldGrowthSpruceTaiga => None,
        Biome::SnowyPlains => None,
        Biome::SnowySlopes => None,
        Biome::SparseJungle => None,
        Biome::StonyPeaks => None,
        Biome::StonyShore => None,
        Biome::WindsweptForest => None,
        Biome::WindsweptGravellyHills => None,
        Biome::WindsweptHills => None,
        Biome::WindsweptSavanna => None,
        Biome::WoodedBadlands => None,
        Biome::MangroveSwamp => None,
        Biome::DeepDark => None,
        Biome::Unknown => None,
    }
}

/// The code table: the variant that a legacy numeric code resolves to.
/// Codes outside the table resolve to `Unknown`.
pub open spec fn biome_of_code(code: i32) -> Biome {
    if code == 0 {
        Biome::Ocean
    } else if code == 4 {
        Biome::Forest
    } else if code == 7 {
        Biome::River
    } else if code == 10 {
        Biome::FrozenOcean
    } else if code == 11 {
        Biome::FrozenRiver
    } else if code == 16 {
        Biome::Beach
    } else if code == 24 {
        Biome::DeepOcean
    } else if code == 25 {
        Biome::StoneShore
    } else if code == 26 {
        Biome::SnowyBeach
    } else if code == 44 {
        Biome::WarmOcean
    } else if code == 45 {
        Biome::LukewarmOcean
    } else if code == 46 {
        Biome::ColdOcean
    } else if code == 47 {
        Biome::DeepWarmOcean
    } else if code == 48 {
        Biome::DeepLukewarmOcean
    } else if code == 49 {
        Biome::DeepColdOcean
    } else if code == 50 {
        Biome::DeepFrozenOcean
    } else if code == 18 {
        Biome::WoodedHills
    } else if code == 132 {
        Biome::FlowerForest
    } else if code == 27 {
        Biome::BirchForest
    } else if code == 28 {
        Biome::BirchForestHills
    } else if code == 155 {
        Biome::TallBirchForest
    } else if code == 156 {
        Biome::TallBirchHills
    } else if code == 29 {
        Biome::DarkForest
    } else if code == 157 {
        Biome::DarkForestHills
    } else if code == 21 {
        Biome::Jungle
    } else if code == 22 {
        Biome::JungleHills
    } else if code == 149 {
        Biome::ModifiedJungle
    } else if code == 23 {
        Biome::JungleEdge
    } else if code == 151 {
        Biome::ModifiedJungleEdge
    } else if code == 168 {
        Biome::BambooJungle
    } else if code == 169 {
        Biome::BambooJungleHills
    } else if code == 5 {
        Biome::Taiga
    } else if code == 19 {
        Biome::TaigaHills
    } else if code == 133 {
        Biome::TaigaMountains
    } else if code == 30 {
        Biome::SnowyTaiga
    } else if code == 31 {
        Biome::SnowyTaigaHills
    } else if code == 158 {
        Biome::SnowyTaigaMountains
    } else if code == 32 {
        Biome::GiantTreeTaiga
    } else if code == 33 {
        Biome::GiantTreeTaigaHills
    } else if code == 160 {
        Biome::GiantSpruceTaiga
    } else if code == 161 {
        Biome::GiantSpruceTaigaHills
    } else if code == 14 {
        Biome::MushroomFields
    } else if code == 15 {
        Biome::MushroomFieldShore
    } else if code == 6 {
        Biome::Swamp
    } else if code == 134 {
        Biome::SwampHills
    } else if code == 35 {
        Biome::Savanna
    } else if code == 36 {
        Biome::SavannaPlateau
    } else if code == 163 {
        Biome::ShatteredSavanna
    } else if code == 164 {
        Biome::ShatteredSavannaPlateau
    } else if code == 1 {
        Biome::Plains
    } else if code == 129 {
        Biome::SunflowerPlains
    } else if code == 2 {
        Biome::Desert
    } else if code == 17 {
        Biome::DesertHills
    } else if code == 130 {
        Biome::DesertLakes
    } else if code == 12 {
        Biome::SnowyTundra
    } else if code == 13 {
        Biome::SnowyMountains
    } else if code == 140 {
        Biome::IceSpikes
    } else if code == 3 {
        Biome::Mountains
    } else if code == 34 {
        Biome::WoodedMountains
    } else if code == 131 {
        Biome::GravellyMountains
    } else if code == 162 {
        Biome::ModifiedGravellyMountains
    } else if code == 20 {
        Biome::MountainEdge
    } else if code == 37 {
        Biome::Badlands
    } else if code == 39 {
        Biome::BadlandsPlateau
    } else if code == 167 {
        Biome::ModifiedBadlandsPlateau
    } else if code == 38 {
        Biome::WoodedBadlandsPlateau
    } else if code == 166 {
        Biome::ModifiedWoodedBadlandsPlateau
    } else if code == 165 {
        Biome::ErodedBadlands
    } else if code == 8 {
        Biome::Nether
    } else if code == 9 {
        Biome::TheEnd
    } else if code == 40 {
        Biome::SmallEndIslands
    } else if code == 41 {
        Biome::EndMidlands
    } else if code == 42 {
        Biome::EndHighlands
    } else if code == 43 {
        Biome::EndBarrens
    } else if code == 170 {
        Biome::SoulSandValley
    } else if code == 171 {
        Biome::CrimsonForest
    } else if code == 172 {
        Biome::WarpedForest
    } else if code == 127 {
        Biome::TheVoid
    } else if code == 173 {
        Biome::BasaltDeltas
    } else {
        Biome::Unknown
    }
}

/// The climate table: one fixed value per variant, `Unknown` included.
pub open spec fn climate_of(b: Biome) -> Climate {
    match b {
        Biome::Ocean => Climate { temperature: 50, rainfall: 50 },
        Biome::Plains => Climate { temperature: 80, rainfall: 40 },
        Biome::Desert => Climate { temperature: 200, rainfall: 0 },
        Biome::Mountains => Climate { temperature: 20, rainfall: 30 },
        Biome::Forest => Climate { temperature: 70, rainfall: 80 },
        Biome::Taiga => Climate { temperature: 25, rainfall: 80 },
        Biome::Swamp => Climate { temperature: 80, rainfall: 90 },
        Biome::River => Climate { temperature: 50, rainfall: 50 },
        Biome::Nether => Climate { temperature: 200, rainfall: 0 },
        Biome::TheEnd => Climate { temperature: 50, rainfall: 50 },
        Biome::FrozenOcean => Climate { temperature: 0, rainfall: 50 },
        Biome::FrozenRiver => Climate { temperature: 0, rainfall: 50 },
        Biome::SnowyTundra => Climate { temperature: 0, rainfall: 50 },
        Biome::SnowyMountains => Climate { temperature: 0, rainfall: 50 },
        Biome::MushroomFields => Climate { temperature: 90, rainfall: 100 },
        Biome::MushroomFieldShore => Climate { temperature: 90, rainfall: 100 },
        Biome::Beach => Climate { temperature: 80, rainfall: 40 },
        Biome::DesertHills => Climate { temperature: 200, rainfall: 0 },
        Biome::WoodedHills => Climate { temperature: 70, rainfall: 80 },
        Biome::TaigaHills => Climate { temperature: 25, rainfall: 80 },
        Biome::MountainEdge => Climate { temperature: 20, rainfall: 30 },
        Biome::Jungle => Climate { temperature: 95, rainfall: 90 },
        Biome::JungleHills => Climate { temperature: 95, rainfall: 90 },
        Biome::JungleEdge => Climate { temperature: 95, rainfall: 80 },
        Biome::DeepOcean => Climate { temperature: 50, rainfall: 50 },
        Biome::StoneShore => Climate { temperature: 20, rainfall: 30 },
        Biome::SnowyBeach => Climate { temperature: 5, rainfall: 30 },
        Biome::BirchForest => Climate { temperature: 60, rainfall: 60 },
        Biome::BirchForestHills => Climate { temperature: 60, rainfall: 60 },
        Biome::DarkForest => Climate { temperature: 70, rainfall: 80 },
        Biome::SnowyTaiga => Climate { temperature: -50i32, rainfall: 40 },
        Biome::SnowyTaigaHills => Climate { temperature: -50i32, rainfall: 40 },
        Biome::GiantTreeTaiga => Climate { temperature: 30, rainfall: 80 },
        Biome::GiantTreeTaigaHills => Climate { temperature: 30, rainfall: 80 },
        Biome::WoodedMountains => Climate { temperature: 20, rainfall: 30 },
        Biome::Savanna => Climate { temperature: 120, rainfall: 0 },
        Biome::SavannaPlateau => Climate { temperature: 100, rainfall: 0 },
        Biome::Badlands => Climate { temperature: 200, rainfall: 0 },
        Biome::WoodedBadlandsPlateau => Climate { temperature: 200, rainfall: 0 },
        Biome::BadlandsPlateau => Climate { temperature: 200, rainfall: 0 },
        Biome::SmallEndIslands => Climate { temperature: 50, rainfall: 50 },
        Biome::EndMidlands => Climate { temperature: 50, rainfall: 50 },
        Biome::EndHighlands => Climate { temperature: 50, rainfall: 50 },
        Biome::EndBarrens => Climate { temperature: 50, rainfall: 50 },
        Biome::WarmOcean => Climate { temperature: 80, rainfall: 50 },
        Biome::LukewarmOcean => Climate { temperature: 80, rainfall: 50 },
        Biome::ColdOcean => Climate { temperature: 80, rainfall: 50 },
        Biome::DeepWarmOcean => Climate { temperature: 80, rainfall: 50 },
        Biome::DeepLukewarmOcean => Climate { temperature: 80, rainfall: 50 },
        Biome::DeepColdOcean => Climate { temperature: 80, rainfall: 50 },
        Biome::DeepFrozenOcean => Climate { temperature: 80, rainfall: 50 },
        Biome::TheVoid => Climate { temperature: 50, rainfall: 50 },
        Biome::SunflowerPlains => Climate { temperature: 80, rainfall: 40 },
        Biome::DesertLakes => Climate { temperature: 200, rainfall: 0 },
        Biome::GravellyMountains => Climate { temperature: 20, rainfall: 30 },
        Biome::FlowerForest => Climate { temperature: 70, rainfall: 80 },
        Biome::TaigaMountains => Climate { temperature: 25, rainfall: 80 },
        Biome::SwampHills => Climate { temperature: 80, rainfall: 90 },
        Biome::IceSpikes => Climate { temperature: 0, rainfall: 50 },
        Biome::ModifiedJungle => Climate { temperature: 95, rainfall: 90 },
        Biome::ModifiedJungleEdge => Climate { temperature: 95, rainfall: 80 },
        Biome::TallBirchForest => Climate { temperature: 60, rainfall: 60 },
        Biome::TallBirchHills => Climate { temperature: 60, rainfall: 60 },
        Biome::DarkForestHills => Climate { temperature: 70, rainfall: 80 },
        Biome::SnowyTaigaMountains => Climate { temperature: -50i32, rainfall: 40 },
        Biome::GiantSpruceTaiga => Climate { temperature: 25, rainfall: 80 },
        Biome::GiantSpruceTaigaHills => Climate { temperature: 25, rainfall: 80 },
        Biome::ModifiedGravellyMountains => Climate { temperature: 20, rainfall: 30 },
        Biome::ShatteredSavanna => Climate { temperature: 110, rainfall: 0 },
        Biome::ShatteredSavannaPlateau => Climate { temperature: 100, rainfall: 0 },
        Biome::ErodedBadlands => Climate { temperature: 200, rainfall: 0 },
        Biome::ModifiedWoodedBadlandsPlateau => Climate { temperature: 200, rainfall: 0 },
        Biome::ModifiedBadlandsPlateau => Climate { temperature: 200, rainfall: 0 },
        Biome::BambooJungle => Climate { temperature: 95, rainfall: 90 },
        Biome::BambooJungleHills => Climate { temperature: 95, rainfall: 90 },
        Biome::SoulSandValley => Climate { temperature: 200, rainfall: 0 },
        Biome::CrimsonForest => Climate { temperature: 200, rainfall: 0 },
        Biome::WarpedForest => Climate { temperature: 200, rainfall: 0 },
        Biome::BasaltDeltas => Climate { temperature: 200, rainfall: 0 },
        Biome::DripstoneCaves => Climate { temperature: 80, rainfall: 40 },
        Biome::FrozenPeaks => Climate { temperature: -70i32, rainfall: 90 },
        Biome::JaggedPeaks => Climate { temperature: -70i32, rainfall: 90 },
        Biome::Grove => Climate { temperature: -20i32, rainfall: 80 },
        Biome::LushCaves => Climate { temperature: 50, rainfall: 50 },
        Biome::Meadow => Climate { temperature: 50, rainfall: 80 },
        Biome::NetherWastes => Climate { temperature: 200, rainfall: 0 },
        Biome::OldGrowthBirchForest => Climate { temperature: 60, rainfall: 60 },
        Biome::OldGrowthPineTaiga => Climate { temperature: 30, rainfall: 80 },
        Biome::OldGrowthSpruceTaiga => Climate { temperature: 25, rainfall: 80 },
        Biome::SnowyPlains => Climate { temperature: 0, rainfall: 50 },
        Biome::SnowySlopes => Climate { temperature: -30i32, rainfall: 90 },
        Biome::SparseJungle => Climate { temperature: 95, rainfall: 80 },
        Biome::StonyPeaks => Climate { temperature: 100, rainfall: 30 },
        Biome::StonyShore => Climate { temperature: 20, rainfall: 30 },
        Biome::WindsweptForest => Climate { temperature: 20, rainfall: 30 },
        Biome::WindsweptGravellyHills => Climate { temperature: 20, rainfall: 30 },
        Biome::WindsweptHills => Climate { temperature: 20, rainfall: 30 },
        Biome::WindsweptSavanna => Climate { temperature: 110, rainfall: 0 },
        Biome::WoodedBadlands => Climate { temperature: 200, rainfall: 0 },
        Biome::MangroveSwamp => Climate { temperature: 80, rainfall: 90 },
        Biome::DeepDark => Climate { temperature: 80, rainfall: 50 },
        Biome::Unknown => Climate { temperature: 0, rainfall: 0 },
    }
}

impl Biome {
    /// Resolves a namespaced biome name. Total: names outside the name
    /// table, and strings without the `minecraft:` namespace prefix,
    /// resolve to `Unknown` rather than failing.
    pub fn from_name(name: &str) -> (r: Biome)
        ensures
            r == biome_of_name(name@),
    {
        if str_eq(name, "minecraft:badlands") {
            Biome::Badlands
        } else if str_eq(name, "minecraft:bamboo_jungle") {
            Biome::BambooJungle
        } else if str_eq(name, "minecraft:basalt_deltas") {
            Biome::BasaltDeltas
        } else if str_eq(name, "minecraft:beach") {
            Biome::Beach
        } else if str_eq(name, "minecraft:birch_forest") {
            Biome::BirchForest
        } else if str_eq(name, "minecraft:cold_ocean") {
            Biome::ColdOcean
        } else if str_eq(name, "minecraft:crimson_forest") {
            Biome::CrimsonForest
        } else if str_eq(name, "minecraft:dark_forest") {
            Biome::DarkForest
        } else if str_eq(name, "minecraft:deep_cold_ocean") {
            Biome::DeepColdOcean
        } else if str_eq(name, "minecraft:deep_frozen_ocean") {
            Biome::DeepFrozenOcean
        } else if str_eq(name, "minecraft:deep_lukewarm_ocean") {
            Biome::DeepLukewarmOcean
        } else if str_eq(name, "minecraft:deep_ocean") {
            Biome::DeepOcean
        } else if str_eq(name, "minecraft:desert") {
            Biome::Desert
        } else if str_eq(name, "minecraft:dripstone_caves") {
            Biome::DripstoneCaves
        } else if str_eq(name, "minecraft:end_barrens") {
            Biome::EndBarrens
        } else if str_eq(name, "minecraft:end_highlands") {
            Biome::EndHighlands
        } else if str_eq(name, "minecraft:end_midlands") {
            Biome::EndMidlands
        } else if str_eq(name, "minecraft:eroded_badlands") {
            Biome::ErodedBadlands
        } else if str_eq(name, "minecraft:flower_forest") {
            Biome::FlowerForest
        } else if str_eq(name, "minecraft:forest") {
            Biome::Forest
        } else if str_eq(name, "minecraft:frozen_ocean") {
            Biome::FrozenOcean
        } else if str_eq(name, "minecraft:frozen_peaks") {
            Biome::FrozenPeaks
        } else if str_eq(name, "minecraft:frozen_river") {
            Biome::FrozenRiver
        } else if str_eq(name, "minecraft:grove") {
            Biome::Grove
        } else if str_eq(name, "minecraft:ice_spikes") {
            Biome::IceSpikes
        } else if str_eq(name, "minecraft:jagged_peaks") {
            Biome::JaggedPeaks
        } else if str_eq(name, "minecraft:jungle") {
            Biome::Jungle
        } else if str_eq(name, "minecraft:lukewarm_ocean") {
            Biome::LukewarmOcean
        } else if str_eq(name, "minecraft:lush_caves") {
            Biome::LushCaves
        } else if str_eq(name, "minecraft:meadow") {
            Biome::Meadow
        } else if str_eq(name, "minecraft:mushroom_fields") {
            Biome::MushroomFields
        } else if str_eq(name, "minecraft:nether_wastes") {
            Biome::NetherWastes
        } else if str_eq(name, "minecraft:ocean") {
            Biome::Ocean
        } else if str_eq(name, "minecraft:old_growth_birch_forest") {
            Biome::OldGrowthBirchForest
        } else if str_eq(name, "minecraft:old_growth_pine_taiga") {
            Biome::OldGrowthPineTaiga
        } else if str_eq(name, "minecraft:old_growth_spruce_taiga") {
            Biome::OldGrowthSpruceTaiga
        } else if str_eq(name, "minecraft:plains") {
            Biome::Plains
        } else if str_eq(name, "minecraft:river") {
            Biome::River
        } else if str_eq(name, "minecraft:savanna") {
            Biome::Savanna
        } else if str_eq(name, "minecraft:savanna_plateau") {
            Biome::SavannaPlateau
        } else if str_eq(name, "minecraft:small_end_islands") {
            Biome::SmallEndIslands
        } else if str_eq(name, "minecraft:snowy_beach") {
            Biome::SnowyBeach
        } else if str_eq(name, "minecraft:snowy_plains") {
            Biome::SnowyPlains
        } else if str_eq(name, "minecraft:snowy_slopes") {
            Biome::SnowySlopes
        } else if str_eq(name, "minecraft:snowy_taiga") {
            Biome::SnowyTaiga
        } else if str_eq(name, "minecraft:soul_sand_valley") {
            Biome::SoulSandValley
        } else if str_eq(name, "minecraft:sparse_jungle") {
            Biome::SparseJungle
        } else if str_eq(name, "minecraft:stony_peaks") {
            Biome::StonyPeaks
        } else if str_eq(name, "minecraft:stony_shore") {
            Biome::StonyShore
        } else if str_eq(name, "minecraft:sunflower_plains") {
            Biome::SunflowerPlains
        } else if str_eq(name, "minecraft:swamp") {
            Biome::Swamp
        } else if str_eq(name, "minecraft:taiga") {
            Biome::Taiga
        } else if str_eq(name, "minecraft:the_end") {
            Biome::TheEnd
        } else if str_eq(name, "minecraft:the_void") {
            Biome::TheVoid
        } else if str_eq(name, "minecraft:warm_ocean") {
            Biome::WarmOcean
        } else if str_eq(name, "minecraft:warped_forest") {
            Biome::WarpedForest
        } else if str_eq(name, "minecraft:windswept_forest") {
            Biome::WindsweptForest
        } else if str_eq(name, "minecraft:windswept_gravelly_hills") {
            Biome::WindsweptGravellyHills
        } else if str_eq(name, "minecraft:windswept_hills") {
            Biome::WindsweptHills
        } else if str_eq(name, "minecraft:windswept_savanna") {
            Biome::WindsweptSavanna
        } else if str_eq(name, "minecraft:wooded_badlands") {
            Biome::WoodedBadlands
        } else if str_eq(name, "minecraft:mangrove_swamp") {
            Biome::MangroveSwamp
        } else if str_eq(name, "minecraft:deep_dark") {
            Biome::DeepDark
        } else {
            Biome::Unknown
        }
    }

    /// Resolves a legacy numeric biome code. Total: unmapped codes
    /// resolve to `Unknown` rather than failing.
    pub fn from_code(code: i32) -> (r: Biome)
        ensures
            r == biome_of_code(code),
    {
        match code {
            0 => Biome::Ocean,
            4 => Biome::Forest,
            7 => Biome::River,
            10 => Biome::FrozenOcean,
            11 => Biome::FrozenRiver,
            16 => Biome::Beach,
            24 => Biome::DeepOcean,
            25 => Biome::StoneShore,
            26 => Biome::SnowyBeach,
            44 => Biome::WarmOcean,
            45 => Biome::LukewarmOcean,
            46 => Biome::ColdOcean,
            47 => Biome::DeepWarmOcean,
            48 => Biome::DeepLukewarmOcean,
            49 => Biome::DeepColdOcean,
            50 => Biome::DeepFrozenOcean,
            18 => Biome::WoodedHills,
            132 => Biome::FlowerForest,
            27 => Biome::BirchForest,
            28 => Biome::BirchForestHills,
            155 => Biome::TallBirchForest,
            156 => Biome::TallBirchHills,
            29 => Biome::DarkForest,
            157 => Biome::DarkForestHills,
            21 => Biome::Jungle,
            22 => Biome::JungleHills,
            149 => Biome::ModifiedJungle,
            23 => Biome::JungleEdge,
            151 => Biome::ModifiedJungleEdge,
            168 => Biome::BambooJungle,
            169 => Biome::BambooJungleHills,
            5 => Biome::Taiga,
            19 => Biome::TaigaHills,
            133 => Biome::TaigaMountains,
            30 => Biome::SnowyTaiga,
            31 => Biome::SnowyTaigaHills,
            158 => Biome::SnowyTaigaMountains,
            32 => Biome::GiantTreeTaiga,
            33 => Biome::GiantTreeTaigaHills,
            160 => Biome::GiantSpruceTaiga,
            161 => Biome::GiantSpruceTaigaHills,
            14 => Biome::MushroomFields,
            15 => Biome::MushroomFieldShore,
            6 => Biome::Swamp,
            134 => Biome::SwampHills,
            35 => Biome::Savanna,
            36 => Biome::SavannaPlateau,
            163 => Biome::ShatteredSavanna,
            164 => Biome::ShatteredSavannaPlateau,
            1 => Biome::Plains,
            129 => Biome::SunflowerPlains,
            2 => Biome::Desert,
            17 => Biome::DesertHills,
            130 => Biome::DesertLakes,
            12 => Biome::SnowyTundra,
            13 => Biome::SnowyMountains,
            140 => Biome::IceSpikes,
            3 => Biome::Mountains,
            34 => Biome::WoodedMountains,
            131 => Biome::GravellyMountains,
            162 => Biome::ModifiedGravellyMountains,
            20 => Biome::MountainEdge,
            37 => Biome::Badlands,
            39 => Biome::BadlandsPlateau,
            167 => Biome::ModifiedBadlandsPlateau,
            38 => Biome::WoodedBadlandsPlateau,
            166 => Biome::ModifiedWoodedBadlandsPlateau,
            165 => Biome::ErodedBadlands,
            8 => Biome::Nether,
            9 => Biome::TheEnd,
            40 => Biome::SmallEndIslands,
            41 => Biome::EndMidlands,
            42 => Biome::EndHighlands,
            43 => Biome::EndBarrens,
            170 => Biome::SoulSandValley,
            171 => Biome::CrimsonForest,
            172 => Biome::WarpedForest,
            127 => Biome::TheVoid,
            173 => Biome::BasaltDeltas,
            _ => Biome::Unknown,
        }
    }

    /// The variant's legacy numeric code, for the variants that predate
    /// the retirement of numeric biome identifiers; `None` for the rest.
    pub fn legacy_code(self) -> (r: Option<i32>)
        ensures
            r == legacy_code_of(self),
    {
        match self {
            Biome::Ocean => Some(0),
            Biome::Forest => Some(4),
            Biome::River => Some(7),
            Biome::FrozenOcean => Some(10),
            Biome::FrozenRiver => Some(11),
            Biome::Beach => Some(16),
            Biome::DeepOcean => Some(24),
            Biome::StoneShore => Some(25),
            Biome::SnowyBeach => Some(26),
            Biome::WarmOcean => Some(44),
            Biome::LukewarmOcean => Some(45),
            Biome::ColdOcean => Some(46),
            Biome::DeepWarmOcean => Some(47),
            Biome::DeepLukewarmOcean => Some(48),
            Biome::DeepColdOcean => Some(49),
            Biome::DeepFrozenOcean => Some(50),
            Biome::WoodedHills => Some(18),
            Biome::FlowerForest => Some(132),
            Biome::BirchForest => Some(27),
            Biome::BirchForestHills => Some(28),
            Biome::TallBirchForest => Some(155),
            Biome::TallBirchHills => Some(156),
            Biome::DarkForest => Some(29),
            Biome::DarkForestHills => Some(157),
            Biome::Jungle => Some(21),
            Biome::JungleHills => Some(22),
            Biome::ModifiedJungle => Some(149),
            Biome::JungleEdge => Some(23),
            Biome::ModifiedJungleEdge => Some(151),
            Biome::BambooJungle => Some(168),
            Biome::BambooJungleHills => Some(169),
            Biome::Taiga => Some(5),
            Biome::TaigaHills => Some(19),
            Biome::TaigaMountains => Some(133),
            Biome::SnowyTaiga => Some(30),
            Biome::SnowyTaigaHills => Some(31),
            Biome::SnowyTaigaMountains => Some(158),
            Biome::GiantTreeTaiga => Some(32),
            Biome::GiantTreeTaigaHills => Some(33),
            Biome::GiantSpruceTaiga => Some(160),
            Biome::GiantSpruceTaigaHills => Some(161),
            Biome::MushroomFields => Some(14),
            Biome::MushroomFieldShore => Some(15),
            Biome::Swamp => Some(6),
            Biome::SwampHills => Some(134),
            Biome::Savanna => Some(35),
            Biome::SavannaPlateau => Some(36),
            Biome::ShatteredSavanna => Some(163),
            Biome::ShatteredSavannaPlateau => Some(164),
            Biome::Plains => Some(1),
            Biome::SunflowerPlains => Some(129),
            Biome::Desert => Some(2),
            Biome::DesertHills => Some(17),
            Biome::DesertLakes => Some(130),
            Biome::SnowyTundra => Some(12),
            Biome::SnowyMountains => Some(13),
            Biome::IceSpikes => Some(140),
            Biome::Mountains => Some(3),
            Biome::WoodedMountains => Some(34),
            Biome::GravellyMountains => Some(131),
            Biome::ModifiedGravellyMountains => Some(162),
            Biome::MountainEdge => Some(20),
            Biome::Badlands => Some(37),
            Biome::BadlandsPlateau => Some(39),
            Biome::ModifiedBadlandsPlateau => Some(167),
            Biome::WoodedBadlandsPlateau => Some(38),
            Biome::ModifiedWoodedBadlandsPlateau => Some(166),
            Biome::ErodedBadlands => Some(165),
            Biome::Nether => Some(8),
            Biome::TheEnd => Some(9),
            Biome::SmallEndIslands => Some(40),
            Biome::EndMidlands => Some(41),
            Biome::EndHighlands => Some(42),
            Biome::EndBarrens => Some(43),
            Biome::SoulSandValley => Some(170),
            Biome::CrimsonForest => Some(171),
            Biome::WarpedForest => Some(172),
            Biome::TheVoid => Some(127),
            Biome::BasaltDeltas => Some(173),
            Biome::DripstoneCaves
            | Biome::FrozenPeaks
            | Biome::Grove
            | Biome::JaggedPeaks
            | Biome::LushCaves
            | Biome::Meadow
            | Biome::NetherWastes
            | Biome::OldGrowthBirchForest
            | Biome::OldGrowthPineTaiga
            | Biome::OldGrowthSpruceTaiga
            | Biome::SnowyPlains
            | Biome::SnowySlopes
            | Biome::SparseJungle
            | Biome::StonyPeaks
            | Biome::StonyShore
            | Biome::WindsweptForest
            | Biome::WindsweptGravellyHills
            | Biome::WindsweptHills
            | Biome::WindsweptSavanna
            | Biome::WoodedBadlands
            | Biome::MangroveSwamp
            | Biome::DeepDark
            | Biome::Unknown
            => None,
        }
    }

    /// The variant's fixed climate; `Unknown` maps to the zero sentinel.
    pub fn climate(self) -> (r: Climate)
        ensures
            r == climate_of(self),
    {
        match self {
            Biome::Ocean => Climate { temperature: 50, rainfall: 50 },
            Biome::Plains => Climate { temperature: 80, rainfall: 40 },
            Biome::Desert => Climate { temperature: 200, rainfall: 0 },
            Biome::Mountains => Climate { temperature: 20, rainfall: 30 },
            Biome::Forest => Climate { temperature: 70, rainfall: 80 },
            Biome::Taiga => Climate { temperature: 25, rainfall: 80 },
            Biome::Swamp => Climate { temperature: 80, rainfall: 90 },
            Biome::River => Climate { temperature: 50, rainfall: 50 },
            Biome::Nether => Climate { temperature: 200, rainfall: 0 },
            Biome::TheEnd => Climate { temperature: 50, rainfall: 50 },
            Biome::FrozenOcean => Climate { temperature: 0, rainfall: 50 },
            Biome::FrozenRiver => Climate { temperature: 0, rainfall: 50 },
            Biome::SnowyTundra => Climate { temperature: 0, rainfall: 50 },
            Biome::SnowyMountains => Climate { temperature: 0, rainfall: 50 },
            Biome::MushroomFields => Climate { temperature: 90, rainfall: 100 },
            Biome::MushroomFieldShore => Climate { temperature: 90, rainfall: 100 },
            Biome::Beach => Climate { temperature: 80, rainfall: 40 },
            Biome::DesertHills => Climate { temperature: 200, rainfall: 0 },
            Biome::WoodedHills => Climate { temperature: 70, rainfall: 80 },
            Biome::TaigaHills => Climate { temperature: 25, rainfall: 80 },
            Biome::MountainEdge => Climate { temperature: 20, rainfall: 30 },
            Biome::Jungle => Climate { temperature: 95, rainfall: 90 },
            Biome::JungleHills => Climate { temperature: 95, rainfall: 90 },
            Biome::JungleEdge => Climate { temperature: 95, rainfall: 80 },
            Biome::DeepOcean => Climate { temperature: 50, rainfall: 50 },
            Biome::StoneShore => Climate { temperature: 20, rainfall: 30 },
            Biome::SnowyBeach => Climate { temperature: 5, rainfall: 30 },
            Biome::BirchForest => Climate { temperature: 60, rainfall: 60 },
            Biome::BirchForestHills => Climate { temperature: 60, rainfall: 60 },
            Biome::DarkForest => Climate { temperature: 70, rainfall: 80 },
            Biome::SnowyTaiga => Climate { temperature: -50i32, rainfall: 40 },
            Biome::SnowyTaigaHills => Climate { temperature: -50i32, rainfall: 40 },
            Biome::GiantTreeTaiga => Climate { temperature: 30, rainfall: 80 },
            Biome::GiantTreeTaigaHills => Climate { temperature: 30, rainfall: 80 },
            Biome::WoodedMountains => Climate { temperature: 20, rainfall: 30 },
            Biome::Savanna => Climate { temperature: 120, rainfall: 0 },
            Biome::SavannaPlateau => Climate { temperature: 100, rainfall: 0 },
            Biome::Badlands => Climate { temperature: 200, rainfall: 0 },
            Biome::WoodedBadlandsPlateau => Climate { temperature: 200, rainfall: 0 },
            Biome::BadlandsPlateau => Climate { temperature: 200, rainfall: 0 },
            Biome::SmallEndIslands => Climate { temperature: 50, rainfall: 50 },
            Biome::EndMidlands => Climate { temperature: 50, rainfall: 50 },
            Biome::EndHighlands => Climate { temperature: 50, rainfall: 50 },
            Biome::EndBarrens => Climate { temperature: 50, rainfall: 50 },
            Biome::WarmOcean => Climate { temperature: 80, rainfall: 50 },
            Biome::LukewarmOcean => Climate { temperature: 80, rainfall: 50 },
            Biome::ColdOcean => Climate { temperature: 80, rainfall: 50 },
            Biome::DeepWarmOcean => Climate { temperature: 80, rainfall: 50 },
            Biome::DeepLukewarmOcean => Climate { temperature: 80, rainfall: 50 },
            Biome::DeepColdOcean => Climate { temperature: 80, rainfall: 50 },
            Biome::DeepFrozenOcean => Climate { temperature: 80, rainfall: 50 },
            Biome::TheVoid => Climate { temperature: 50, rainfall: 50 },
            Biome::SunflowerPlains => Climate { temperature: 80, rainfall: 40 },
            Biome::DesertLakes => Climate { temperature: 200, rainfall: 0 },
            Biome::GravellyMountains => Climate { temperature: 20, rainfall: 30 },
            Biome::FlowerForest => Climate { temperature: 70, rainfall: 80 },
            Biome::TaigaMountains => Climate { temperature: 25, rainfall: 80 },
            Biome::SwampHills => Climate { temperature: 80, rainfall: 90 },
            Biome::IceSpikes => Climate { temperature: 0, rainfall: 50 },
            Biome::ModifiedJungle => Climate { temperature: 95, rainfall: 90 },
            Biome::ModifiedJungleEdge => Climate { temperature: 95, rainfall: 80 },
            Biome::TallBirchForest => Climate { temperature: 60, rainfall: 60 },
            Biome::TallBirchHills => Climate { temperature: 60, rainfall: 60 },
            Biome::DarkForestHills => Climate { temperature: 70, rainfall: 80 },
            Biome::SnowyTaigaMountains => Climate { temperature: -50i32, rainfall: 40 },
            Biome::GiantSpruceTaiga => Climate { temperature: 25, rainfall: 80 },
            Biome::GiantSpruceTaigaHills => Climate { temperature: 25, rainfall: 80 },
            Biome::ModifiedGravellyMountains => Climate { temperature: 20, rainfall: 30 },
            Biome::ShatteredSavanna => Climate { temperature: 110, rainfall: 0 },
            Biome::ShatteredSavannaPlateau => Climate { temperature: 100, rainfall: 0 },
            Biome::ErodedBadlands => Climate { temperature: 200, rainfall: 0 },
            Biome::ModifiedWoodedBadlandsPlateau => Climate { temperature: 200, rainfall: 0 },
            Biome::ModifiedBadlandsPlateau => Climate { temperature: 200, rainfall: 0 },
            Biome::BambooJungle => Climate { temperature: 95, rainfall: 90 },
            Biome::BambooJungleHills => Climate { temperature: 95, rainfall: 90 },
            Biome::SoulSandValley => Climate { temperature: 200, rainfall: 0 },
            Biome::CrimsonForest => Climate { temperature: 200, rainfall: 0 },
            Biome::WarpedForest => Climate { temperature: 200, rainfall: 0 },
            Biome::BasaltDeltas => Climate { temperature: 200, rainfall: 0 },
            Biome::DripstoneCaves => Climate { temperature: 80, rainfall: 40 },
            Biome::FrozenPeaks => Climate { temperature: -70i32, rainfall: 90 },
            Biome::JaggedPeaks => Climate { temperature: -70i32, rainfall: 90 },
            Biome::Grove => Climate { temperature: -20i32, rainfall: 80 },
            Biome::LushCaves => Climate { temperature: 50, rainfall: 50 },
            Biome::Meadow => Climate { temperature: 50, rainfall: 80 },
            Biome::NetherWastes => Climate { temperature: 200, rainfall: 0 },
            Biome::OldGrowthBirchForest => Climate { temperature: 60, rainfall: 60 },
            Biome::OldGrowthPineTaiga => Climate { temperature: 30, rainfall: 80 },
            Biome::OldGrowthSpruceTaiga => Climate { temperature: 25, rainfall: 80 },
            Biome::SnowyPlains => Climate { temperature: 0, rainfall: 50 },
            Biome::SnowySlopes => Climate { temperature: -30i32, rainfall: 90 },
            Biome::SparseJungle => Climate { temperature: 95, rainfall: 80 },
            Biome::StonyPeaks => Climate { temperature: 100, rainfall: 30 },
            Biome::StonyShore => Climate { temperature: 20, rainfall: 30 },
            Biome::WindsweptForest => Climate { temperature: 20, rainfall: 30 },
            Biome::WindsweptGravellyHills => Climate { temperature: 20, rainfall: 30 },
            Biome::WindsweptHills => Climate { temperature: 20, rainfall: 30 },
            Biome::WindsweptSavanna => Climate { temperature: 110, rainfall: 0 },
            Biome::WoodedBadlands => Climate { temperature: 200, rainfall: 0 },
            Biome::MangroveSwamp => Climate { temperature: 80, rainfall: 90 },
            Biome::DeepDark => Climate { temperature: 80, rainfall: 50 },
            Biome::Unknown => Climate { temperature: 0, rainfall: 0 },
        }
    }
}

/// Every legacy numeric code decodes back to the variant it belongs to.
pub proof fn lemma_legacy_code_round_trip(b: Biome)
    requires
        legacy_code_of(b) is Some,
    ensures
        biome_of_code(legacy_code_of(b)->0) == b,
{
}

/// No two variants share a legacy numeric code.
pub proof fn lemma_legacy_code_distinct(b1: Biome, b2: Biome)
    requires
        legacy_code_of(b1) is Some,
        legacy_code_of(b1) == legacy_code_of(b2),
    ensures
        b1 == b2,
{
    lemma_legacy_code_round_trip(b1);
    lemma_legacy_code_round_trip(b2);
}

} // verus!
