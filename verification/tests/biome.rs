//! Biome resolution and climate tests.

use fastanvil::{Biome, Climate};

#[test]
fn decode_known_names() {
    assert_eq!(Biome::from_name("minecraft:badlands"), Biome::Badlands);
    assert_eq!(Biome::from_name("minecraft:bamboo_jungle"), Biome::BambooJungle);
    assert_eq!(Biome::from_name("minecraft:basalt_deltas"), Biome::BasaltDeltas);
    assert_eq!(Biome::from_name("minecraft:beach"), Biome::Beach);
    assert_eq!(Biome::from_name("minecraft:birch_forest"), Biome::BirchForest);
    assert_eq!(Biome::from_name("minecraft:cold_ocean"), Biome::ColdOcean);
    assert_eq!(Biome::from_name("minecraft:crimson_forest"), Biome::CrimsonForest);
    assert_eq!(Biome::from_name("minecraft:dark_forest"), Biome::DarkForest);
    assert_eq!(Biome::from_name("minecraft:deep_cold_ocean"), Biome::DeepColdOcean);
    assert_eq!(Biome::from_name("minecraft:deep_frozen_ocean"), Biome::DeepFrozenOcean);
    assert_eq!(Biome::from_name("minecraft:deep_lukewarm_ocean"), Biome::DeepLukewarmOcean);
    assert_eq!(Biome::from_name("minecraft:deep_ocean"), Biome::DeepOcean);
    assert_eq!(Biome::from_name("minecraft:desert"), Biome::Desert);
    assert_eq!(Biome::from_name("minecraft:dripstone_caves"), Biome::DripstoneCaves);
    assert_eq!(Biome::from_name("minecraft:end_barrens"), Biome::EndBarrens);
    assert_eq!(Biome::from_name("minecraft:end_highlands"), Biome::EndHighlands);
    assert_eq!(Biome::from_name("minecraft:end_midlands"), Biome::EndMidlands);
    assert_eq!(Biome::from_name("minecraft:eroded_badlands"), Biome::ErodedBadlands);
    assert_eq!(Biome::from_name("minecraft:flower_forest"), Biome::FlowerForest);
    assert_eq!(Biome::from_name("minecraft:forest"), Biome::Forest);
    assert_eq!(Biome::from_name("minecraft:frozen_ocean"), Biome::FrozenOcean);
    assert_eq!(Biome::from_name("minecraft:frozen_peaks"), Biome::FrozenPeaks);
    assert_eq!(Biome::from_name("minecraft:frozen_river"), Biome::FrozenRiver);
    assert_eq!(Biome::from_name("minecraft:grove"), Biome::Grove);
    assert_eq!(Biome::from_name("minecraft:ice_spikes"), Biome::IceSpikes);
    assert_eq!(Biome::from_name("minecraft:jagged_peaks"), Biome::JaggedPeaks);
    assert_eq!(Biome::from_name("minecraft:jungle"), Biome::Jungle);
    assert_eq!(Biome::from_name("minecraft:lukewarm_ocean"), Biome::LukewarmOcean);
    assert_eq!(Biome::from_name("minecraft:lush_caves"), Biome::LushCaves);
    assert_eq!(Biome::from_name("minecraft:meadow"), Biome::Meadow);
    assert_eq!(Biome::from_name("minecraft:mushroom_fields"), Biome::MushroomFields);
    assert_eq!(Biome::from_name("minecraft:nether_wastes"), Biome::NetherWastes);
    assert_eq!(Biome::from_name("minecraft:ocean"), Biome::Ocean);
    assert_eq!(Biome::from_name("minecraft:old_growth_birch_forest"), Biome::OldGrowthBirchForest);
    assert_eq!(Biome::from_name("minecraft:old_growth_pine_taiga"), Biome::OldGrowthPineTaiga);
    assert_eq!(Biome::from_name("minecraft:old_growth_spruce_taiga"), Biome::OldGrowthSpruceTaiga);
    assert_eq!(Biome::from_name("minecraft:plains"), Biome::Plains);
    assert_eq!(Biome::from_name("minecraft:river"), Biome::River);
    assert_eq!(Biome::from_name("minecraft:savanna"), Biome::Savanna);
    assert_eq!(Biome::from_name("minecraft:savanna_plateau"), Biome::SavannaPlateau);
    assert_eq!(Biome::from_name("minecraft:small_end_islands"), Biome::SmallEndIslands);
    assert_eq!(Biome::from_name("minecraft:snowy_beach"), Biome::SnowyBeach);
    assert_eq!(Biome::from_name("minecraft:snowy_plains"), Biome::SnowyPlains);
    assert_eq!(Biome::from_name("minecraft:snowy_slopes"), Biome::SnowySlopes);
    assert_eq!(Biome::from_name("minecraft:snowy_taiga"), Biome::SnowyTaiga);
    assert_eq!(Biome::from_name("minecraft:soul_sand_valley"), Biome::SoulSandValley);
    assert_eq!(Biome::from_name("minecraft:sparse_jungle"), Biome::SparseJungle);
    assert_eq!(Biome::from_name("minecraft:stony_peaks"), Biome::StonyPeaks);
    assert_eq!(Biome::from_name("minecraft:stony_shore"), Biome::StonyShore);
    assert_eq!(Biome::from_name("minecraft:sunflower_plains"), Biome::SunflowerPlains);
    assert_eq!(Biome::from_name("minecraft:swamp"), Biome::Swamp);
    assert_eq!(Biome::from_name("minecraft:taiga"), Biome::Taiga);
    assert_eq!(Biome::from_name("minecraft:the_end"), Biome::TheEnd);
    assert_eq!(Biome::from_name("minecraft:the_void"), Biome::TheVoid);
    assert_eq!(Biome::from_name("minecraft:warm_ocean"), Biome::WarmOcean);
    assert_eq!(Biome::from_name("minecraft:warped_forest"), Biome::WarpedForest);
    assert_eq!(Biome::from_name("minecraft:windswept_forest"), Biome::WindsweptForest);
    assert_eq!(Biome::from_name("minecraft:windswept_gravelly_hills"), Biome::WindsweptGravellyHills);
    assert_eq!(Biome::from_name("minecraft:windswept_hills"), Biome::WindsweptHills);
    assert_eq!(Biome::from_name("minecraft:windswept_savanna"), Biome::WindsweptSavanna);
    assert_eq!(Biome::from_name("minecraft:wooded_badlands"), Biome::WoodedBadlands);
    assert_eq!(Biome::from_name("minecraft:mangrove_swamp"), Biome::MangroveSwamp);
    assert_eq!(Biome::from_name("minecraft:deep_dark"), Biome::DeepDark);
}

#[test]
fn decode_name_is_idempotent_across_calls() {
    assert_eq!(
        Biome::from_name("minecraft:badlands"),
        Biome::from_name("minecraft:badlands")
    );
    assert_eq!(
        Biome::from_name("minecraft:bamboo_jungle"),
        Biome::from_name("minecraft:bamboo_jungle")
    );
    assert_eq!(
        Biome::from_name("minecraft:basalt_deltas"),
        Biome::from_name("minecraft:basalt_deltas")
    );
    assert_eq!(
        Biome::from_name("minecraft:beach"),
        Biome::from_name("minecraft:beach")
    );
}

#[test]
fn decode_unknown_names() {
    assert_eq!(
        Biome::from_name("minecraft:totally_unknown_biome"),
        Biome::Unknown
    );
    assert_eq!(Biome::from_name("no_prefix_here"), Biome::Unknown);
    assert_eq!(Biome::from_name(""), Biome::Unknown);
    // Exact, case-sensitive match: no normalization beyond the prefix.
    assert_eq!(Biome::from_name("minecraft:Ocean"), Biome::Unknown);
    assert_eq!(Biome::from_name("minecraft:ocean "), Biome::Unknown);
    // The namespace prefix is required, even for a known suffix.
    assert_eq!(Biome::from_name("ocean"), Biome::Unknown);
}

#[test]
fn legacy_codes_round_trip() {
    assert_eq!(Biome::from_code(0), Biome::Ocean);
    assert_eq!(Biome::Ocean.legacy_code(), Some(0));
    assert_eq!(Biome::from_code(4), Biome::Forest);
    assert_eq!(Biome::Forest.legacy_code(), Some(4));
    assert_eq!(Biome::from_code(7), Biome::River);
    assert_eq!(Biome::River.legacy_code(), Some(7));
    assert_eq!(Biome::from_code(10), Biome::FrozenOcean);
    assert_eq!(Biome::FrozenOcean.legacy_code(), Some(10));
    assert_eq!(Biome::from_code(11), Biome::FrozenRiver);
    assert_eq!(Biome::FrozenRiver.legacy_code(), Some(11));
    assert_eq!(Biome::from_code(16), Biome::Beach);
    assert_eq!(Biome::Beach.legacy_code(), Some(16));
    assert_eq!(Biome::from_code(24), Biome::DeepOcean);
    assert_eq!(Biome::DeepOcean.legacy_code(), Some(24));
    assert_eq!(Biome::from_code(25), Biome::StoneShore);
    assert_eq!(Biome::StoneShore.legacy_code(), Some(25));
    assert_eq!(Biome::from_code(26), Biome::SnowyBeach);
    assert_eq!(Biome::SnowyBeach.legacy_code(), Some(26));
    assert_eq!(Biome::from_code(44), Biome::WarmOcean);
    assert_eq!(Biome::WarmOcean.legacy_code(), Some(44));
    assert_eq!(Biome::from_code(45), Biome::LukewarmOcean);
    assert_eq!(Biome::LukewarmOcean.legacy_code(), Some(45));
    assert_eq!(Biome::from_code(46), Biome::ColdOcean);
    assert_eq!(Biome::ColdOcean.legacy_code(), Some(46));
    assert_eq!(Biome::from_code(47), Biome::DeepWarmOcean);
    assert_eq!(Biome::DeepWarmOcean.legacy_code(), Some(47));
    assert_eq!(Biome::from_code(48), Biome::DeepLukewarmOcean);
    assert_eq!(Biome::DeepLukewarmOcean.legacy_code(), Some(48));
    assert_eq!(Biome::from_code(49), Biome::DeepColdOcean);
    assert_eq!(Biome::DeepColdOcean.legacy_code(), Some(49));
    assert_eq!(Biome::from_code(50), Biome::DeepFrozenOcean);
    assert_eq!(Biome::DeepFrozenOcean.legacy_code(), Some(50));
    assert_eq!(Biome::from_code(18), Biome::WoodedHills);
    assert_eq!(Biome::WoodedHills.legacy_code(), Some(18));
    assert_eq!(Biome::from_code(132), Biome::FlowerForest);
    assert_eq!(Biome::FlowerForest.legacy_code(), Some(132));
    assert_eq!(Biome::from_code(27), Biome::BirchForest);
    assert_eq!(Biome::BirchForest.legacy_code(), Some(27));
    assert_eq!(Biome::from_code(28), Biome::BirchForestHills);
    assert_eq!(Biome::BirchForestHills.legacy_code(), Some(28));
    assert_eq!(Biome::from_code(155), Biome::TallBirchForest);
    assert_eq!(Biome::TallBirchForest.legacy_code(), Some(155));
    assert_eq!(Biome::from_code(156), Biome::TallBirchHills);
    assert_eq!(Biome::TallBirchHills.legacy_code(), Some(156));
    assert_eq!(Biome::from_code(29), Biome::DarkForest);
    assert_eq!(Biome::DarkForest.legacy_code(), Some(29));
    assert_eq!(Biome::from_code(157), Biome::DarkForestHills);
    assert_eq!(Biome::DarkForestHills.legacy_code(), Some(157));
    assert_eq!(Biome::from_code(21), Biome::Jungle);
    assert_eq!(Biome::Jungle.legacy_code(), Some(21));
    assert_eq!(Biome::from_code(22), Biome::JungleHills);
    assert_eq!(Biome::JungleHills.legacy_code(), Some(22));
    assert_eq!(Biome::from_code(149), Biome::ModifiedJungle);
    assert_eq!(Biome::ModifiedJungle.legacy_code(), Some(149));
    assert_eq!(Biome::from_code(23), Biome::JungleEdge);
    assert_eq!(Biome::JungleEdge.legacy_code(), Some(23));
    assert_eq!(Biome::from_code(151), Biome::ModifiedJungleEdge);
    assert_eq!(Biome::ModifiedJungleEdge.legacy_code(), Some(151));
    assert_eq!(Biome::from_code(168), Biome::BambooJungle);
    assert_eq!(Biome::BambooJungle.legacy_code(), Some(168));
    assert_eq!(Biome::from_code(169), Biome::BambooJungleHills);
    assert_eq!(Biome::BambooJungleHills.legacy_code(), Some(169));
    assert_eq!(Biome::from_code(5), Biome::Taiga);
    assert_eq!(Biome::Taiga.legacy_code(), Some(5));
    assert_eq!(Biome::from_code(19), Biome::TaigaHills);
    assert_eq!(Biome::TaigaHills.legacy_code(), Some(19));
    assert_eq!(Biome::from_code(133), Biome::TaigaMountains);
    assert_eq!(Biome::TaigaMountains.legacy_code(), Some(133));
    assert_eq!(Biome::from_code(30), Biome::SnowyTaiga);
    assert_eq!(Biome::SnowyTaiga.legacy_code(), Some(30));
    assert_eq!(Biome::from_code(31), Biome::SnowyTaigaHills);
    assert_eq!(Biome::SnowyTaigaHills.legacy_code(), Some(31));
    assert_eq!(Biome::from_code(158), Biome::SnowyTaigaMountains);
    assert_eq!(Biome::SnowyTaigaMountains.legacy_code(), Some(158));
    assert_eq!(Biome::from_code(32), Biome::GiantTreeTaiga);
    assert_eq!(Biome::GiantTreeTaiga.legacy_code(), Some(32));
    assert_eq!(Biome::from_code(33), Biome::GiantTreeTaigaHills);
    assert_eq!(Biome::GiantTreeTaigaHills.legacy_code(), Some(33));
    assert_eq!(Biome::from_code(160), Biome::GiantSpruceTaiga);
    assert_eq!(Biome::GiantSpruceTaiga.legacy_code(), Some(160));
    assert_eq!(Biome::from_code(161), Biome::GiantSpruceTaigaHills);
    assert_eq!(Biome::GiantSpruceTaigaHills.legacy_code(), Some(161));
    assert_eq!(Biome::from_code(14), Biome::MushroomFields);
    assert_eq!(Biome::MushroomFields.legacy_code(), Some(14));
    assert_eq!(Biome::from_code(15), Biome::MushroomFieldShore);
    assert_eq!(Biome::MushroomFieldShore.legacy_code(), Some(15));
    assert_eq!(Biome::from_code(6), Biome::Swamp);
    assert_eq!(Biome::Swamp.legacy_code(), Some(6));
    assert_eq!(Biome::from_code(134), Biome::SwampHills);
    assert_eq!(Biome::SwampHills.legacy_code(), Some(134));
    assert_eq!(Biome::from_code(35), Biome::Savanna);
    assert_eq!(Biome::Savanna.legacy_code(), Some(35));
    assert_eq!(Biome::from_code(36), Biome::SavannaPlateau);
    assert_eq!(Biome::SavannaPlateau.legacy_code(), Some(36));
    assert_eq!(Biome::from_code(163), Biome::ShatteredSavanna);
    assert_eq!(Biome::ShatteredSavanna.legacy_code(), Some(163));
    assert_eq!(Biome::from_code(164), Biome::ShatteredSavannaPlateau);
    assert_eq!(Biome::ShatteredSavannaPlateau.legacy_code(), Some(164));
    assert_eq!(Biome::from_code(1), Biome::Plains);
    assert_eq!(Biome::Plains.legacy_code(), Some(1));
    assert_eq!(Biome::from_code(129), Biome::SunflowerPlains);
    assert_eq!(Biome::SunflowerPlains.legacy_code(), Some(129));
    assert_eq!(Biome::from_code(2), Biome::Desert);
    assert_eq!(Biome::Desert.legacy_code(), Some(2));
    assert_eq!(Biome::from_code(17), Biome::DesertHills);
    assert_eq!(Biome::DesertHills.legacy_code(), Some(17));
    assert_eq!(Biome::from_code(130), Biome::DesertLakes);
    assert_eq!(Biome::DesertLakes.legacy_code(), Some(130));
    assert_eq!(Biome::from_code(12), Biome::SnowyTundra);
    assert_eq!(Biome::SnowyTundra.legacy_code(), Some(12));
    assert_eq!(Biome::from_code(13), Biome::SnowyMountains);
    assert_eq!(Biome::SnowyMountains.legacy_code(), Some(13));
    assert_eq!(Biome::from_code(140), Biome::IceSpikes);
    assert_eq!(Biome::IceSpikes.legacy_code(), Some(140));
    assert_eq!(Biome::from_code(3), Biome::Mountains);
    assert_eq!(Biome::Mountains.legacy_code(), Some(3));
    assert_eq!(Biome::from_code(34), Biome::WoodedMountains);
    assert_eq!(Biome::WoodedMountains.legacy_code(), Some(34));
    assert_eq!(Biome::from_code(131), Biome::GravellyMountains);
    assert_eq!(Biome::GravellyMountains.legacy_code(), Some(131));
    assert_eq!(Biome::from_code(162), Biome::ModifiedGravellyMountains);
    assert_eq!(Biome::ModifiedGravellyMountains.legacy_code(), Some(162));
    assert_eq!(Biome::from_code(20), Biome::MountainEdge);
    assert_eq!(Biome::MountainEdge.legacy_code(), Some(20));
    assert_eq!(Biome::from_code(37), Biome::Badlands);
    assert_eq!(Biome::Badlands.legacy_code(), Some(37));
    assert_eq!(Biome::from_code(39), Biome::BadlandsPlateau);
    assert_eq!(Biome::BadlandsPlateau.legacy_code(), Some(39));
    assert_eq!(Biome::from_code(167), Biome::ModifiedBadlandsPlateau);
    assert_eq!(Biome::ModifiedBadlandsPlateau.legacy_code(), Some(167));
    assert_eq!(Biome::from_code(38), Biome::WoodedBadlandsPlateau);
    assert_eq!(Biome::WoodedBadlandsPlateau.legacy_code(), Some(38));
    assert_eq!(Biome::from_code(166), Biome::ModifiedWoodedBadlandsPlateau);
    assert_eq!(Biome::ModifiedWoodedBadlandsPlateau.legacy_code(), Some(166));
    assert_eq!(Biome::from_code(165), Biome::ErodedBadlands);
    assert_eq!(Biome::ErodedBadlands.legacy_code(), Some(165));
    assert_eq!(Biome::from_code(8), Biome::Nether);
    assert_eq!(Biome::Nether.legacy_code(), Some(8));
    assert_eq!(Biome::from_code(9), Biome::TheEnd);
    assert_eq!(Biome::TheEnd.legacy_code(), Some(9));
    assert_eq!(Biome::from_code(40), Biome::SmallEndIslands);
    assert_eq!(Biome::SmallEndIslands.legacy_code(), Some(40));
    assert_eq!(Biome::from_code(41), Biome::EndMidlands);
    assert_eq!(Biome::EndMidlands.legacy_code(), Some(41));
    assert_eq!(Biome::from_code(42), Biome::EndHighlands);
    assert_eq!(Biome::EndHighlands.legacy_code(), Some(42));
    assert_eq!(Biome::from_code(43), Biome::EndBarrens);
    assert_eq!(Biome::EndBarrens.legacy_code(), Some(43));
    assert_eq!(Biome::from_code(170), Biome::SoulSandValley);
    assert_eq!(Biome::SoulSandValley.legacy_code(), Some(170));
    assert_eq!(Biome::from_code(171), Biome::CrimsonForest);
    assert_eq!(Biome::CrimsonForest.legacy_code(), Some(171));
    assert_eq!(Biome::from_code(172), Biome::WarpedForest);
    assert_eq!(Biome::WarpedForest.legacy_code(), Some(172));
    assert_eq!(Biome::from_code(127), Biome::TheVoid);
    assert_eq!(Biome::TheVoid.legacy_code(), Some(127));
    assert_eq!(Biome::from_code(173), Biome::BasaltDeltas);
    assert_eq!(Biome::BasaltDeltas.legacy_code(), Some(173));
}

#[test]
fn legacy_codes_are_unique() {
    let mut seen: Vec<i32> = Vec::new();
    let coded: Vec<Biome> = vec![
        Biome::Ocean, Biome::Forest, Biome::River, Biome::FrozenOcean, Biome::FrozenRiver, Biome::Beach,
        Biome::DeepOcean, Biome::StoneShore, Biome::SnowyBeach, Biome::WarmOcean, Biome::LukewarmOcean, Biome::ColdOcean,
        Biome::DeepWarmOcean, Biome::DeepLukewarmOcean, Biome::DeepColdOcean, Biome::DeepFrozenOcean, Biome::WoodedHills, Biome::FlowerForest,
        Biome::BirchForest, Biome::BirchForestHills, Biome::TallBirchForest, Biome::TallBirchHills, Biome::DarkForest, Biome::DarkForestHills,
        Biome::Jungle, Biome::JungleHills, Biome::ModifiedJungle, Biome::JungleEdge, Biome::ModifiedJungleEdge, Biome::BambooJungle,
        Biome::BambooJungleHills, Biome::Taiga, Biome::TaigaHills, Biome::TaigaMountains, Biome::SnowyTaiga, Biome::SnowyTaigaHills,
        Biome::SnowyTaigaMountains, Biome::GiantTreeTaiga, Biome::GiantTreeTaigaHills, Biome::GiantSpruceTaiga, Biome::GiantSpruceTaigaHills, Biome::MushroomFields,
        Biome::MushroomFieldShore, Biome::Swamp, Biome::SwampHills, Biome::Savanna, Biome::SavannaPlateau, Biome::ShatteredSavanna,
        Biome::ShatteredSavannaPlateau, Biome::Plains, Biome::SunflowerPlains, Biome::Desert, Biome::DesertHills, Biome::DesertLakes,
        Biome::SnowyTundra, Biome::SnowyMountains, Biome::IceSpikes, Biome::Mountains, Biome::WoodedMountains, Biome::GravellyMountains,
        Biome::ModifiedGravellyMountains, Biome::MountainEdge, Biome::Badlands, Biome::BadlandsPlateau, Biome::ModifiedBadlandsPlateau, Biome::WoodedBadlandsPlateau,
        Biome::ModifiedWoodedBadlandsPlateau, Biome::ErodedBadlands, Biome::Nether, Biome::TheEnd, Biome::SmallEndIslands, Biome::EndMidlands,
        Biome::EndHighlands, Biome::EndBarrens, Biome::SoulSandValley, Biome::CrimsonForest, Biome::WarpedForest, Biome::TheVoid,
        Biome::BasaltDeltas,
    ];
    for b in coded {
        let code = b.legacy_code().unwrap();
        assert!(!seen.contains(&code));
        seen.push(code);
    }
}

#[test]
fn unmapped_codes_decode_to_unknown() {
    assert_eq!(Biome::from_code(-1), Biome::Unknown);
    assert_eq!(Biome::from_code(51), Biome::Unknown);
    assert_eq!(Biome::from_code(128), Biome::Unknown);
    assert_eq!(Biome::from_code(1000), Biome::Unknown);
    assert_eq!(Biome::from_code(i32::MIN), Biome::Unknown);
    assert_eq!(Biome::from_code(i32::MAX), Biome::Unknown);
}

#[test]
fn variants_without_numeric_contract_have_no_code() {
    assert_eq!(Biome::DripstoneCaves.legacy_code(), None);
    assert_eq!(Biome::FrozenPeaks.legacy_code(), None);
    assert_eq!(Biome::Grove.legacy_code(), None);
    assert_eq!(Biome::JaggedPeaks.legacy_code(), None);
    assert_eq!(Biome::LushCaves.legacy_code(), None);
    assert_eq!(Biome::Meadow.legacy_code(), None);
    assert_eq!(Biome::NetherWastes.legacy_code(), None);
    assert_eq!(Biome::OldGrowthBirchForest.legacy_code(), None);
    assert_eq!(Biome::OldGrowthPineTaiga.legacy_code(), None);
    assert_eq!(Biome::OldGrowthSpruceTaiga.legacy_code(), None);
    assert_eq!(Biome::SnowyPlains.legacy_code(), None);
    assert_eq!(Biome::SnowySlopes.legacy_code(), None);
    assert_eq!(Biome::SparseJungle.legacy_code(), None);
    assert_eq!(Biome::StonyPeaks.legacy_code(), None);
    assert_eq!(Biome::StonyShore.legacy_code(), None);
    assert_eq!(Biome::WindsweptForest.legacy_code(), None);
    assert_eq!(Biome::WindsweptGravellyHills.legacy_code(), None);
    assert_eq!(Biome::WindsweptHills.legacy_code(), None);
    assert_eq!(Biome::WindsweptSavanna.legacy_code(), None);
    assert_eq!(Biome::WoodedBadlands.legacy_code(), None);
    assert_eq!(Biome::MangroveSwamp.legacy_code(), None);
    assert_eq!(Biome::DeepDark.legacy_code(), None);
    assert_eq!(Biome::Unknown.legacy_code(), None);
}

#[test]
fn climate_of_unknown_is_zero_sentinel() {
    let c = Biome::Unknown.climate();
    assert_eq!(
        c,
        Climate {
            temperature: 0,
            rainfall: 0
        }
    );
    // In the game's unit this is the (0.0, 0.0) sentinel.
    assert_eq!(c.temperature as f64 / 100.0, 0.0);
    assert_eq!(c.rainfall as f64 / 100.0, 0.0);
}

#[test]
fn climate_table_values() {
    assert_eq!(
        Biome::Ocean.climate(),
        Climate {
            temperature: 50,
            rainfall: 50
        }
    );
    assert_eq!(
        Biome::Plains.climate(),
        Climate {
            temperature: 80,
            rainfall: 40
        }
    );
    assert_eq!(
        Biome::Desert.climate(),
        Climate {
            temperature: 200,
            rainfall: 0
        }
    );
    assert_eq!(
        Biome::Forest.climate(),
        Climate {
            temperature: 70,
            rainfall: 80
        }
    );
    assert_eq!(
        Biome::SnowyTaiga.climate(),
        Climate {
            temperature: -50,
            rainfall: 40
        }
    );
    assert_eq!(
        Biome::FrozenPeaks.climate(),
        Climate {
            temperature: -70,
            rainfall: 90
        }
    );
    assert_eq!(
        Biome::JaggedPeaks.climate(),
        Climate {
            temperature: -70,
            rainfall: 90
        }
    );
    assert_eq!(
        Biome::Grove.climate(),
        Climate {
            temperature: -20,
            rainfall: 80
        }
    );
    assert_eq!(
        Biome::SnowySlopes.climate(),
        Climate {
            temperature: -30,
            rainfall: 90
        }
    );
    assert_eq!(
        Biome::MushroomFields.climate(),
        Climate {
            temperature: 90,
            rainfall: 100
        }
    );
    assert_eq!(
        Biome::BambooJungle.climate(),
        Climate {
            temperature: 95,
            rainfall: 90
        }
    );
    assert_eq!(
        Biome::DeepDark.climate(),
        Climate {
            temperature: 80,
            rainfall: 50
        }
    );
    assert_eq!(
        Biome::StonyPeaks.climate(),
        Climate {
            temperature: 100,
            rainfall: 30
        }
    );
    assert_eq!(
        Biome::Meadow.climate(),
        Climate {
            temperature: 50,
            rainfall: 80
        }
    );
}

#[test]
fn climate_in_game_units() {
    // Hundredths convert exactly to the documented fractional values.
    let c = Biome::Plains.climate();
    assert_eq!(c.temperature as f64 / 100.0, 0.8);
    assert_eq!(c.rainfall as f64 / 100.0, 0.4);
    let c = Biome::SnowyTaiga.climate();
    assert_eq!(c.temperature as f64 / 100.0, -0.5);
    assert_eq!(c.rainfall as f64 / 100.0, 0.4);
}

