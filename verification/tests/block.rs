//! Block model, archetype, and canonical-encoding tests.

use fastanvil::{str_eq, str_lt, Block, BlockArchetype, PropertyMap};

fn block_with(name: &str, props: &[(&str, &str)]) -> Block {
    let mut b = Block::new(name.to_string());
    for (k, v) in props {
        b.properties.insert(k.to_string(), v.to_string());
    }
    b
}

#[test]
fn new_block_has_no_properties() {
    let b = Block::new("minecraft:stone".to_string());
    assert_eq!(b.name(), "minecraft:stone");
    assert_eq!(b.properties.get("snowy"), None);
    assert_eq!(b.encoded_description(), "minecraft:stone|");
}

#[test]
fn property_lookup() {
    let b = block_with("minecraft:water", &[("level", "1"), ("falling", "false")]);
    assert_eq!(b.properties.get("level"), Some(&"1".to_string()));
    assert_eq!(b.properties.get("falling"), Some(&"false".to_string()));
    assert_eq!(b.properties.get("missing"), None);
    // Exact, case-sensitive keys.
    assert_eq!(b.properties.get("Level"), None);
}

#[test]
fn insert_replaces_existing_key() {
    let mut p = PropertyMap::new();
    p.insert("level".to_string(), "1".to_string());
    p.insert("level".to_string(), "7".to_string());
    assert_eq!(p.get("level"), Some(&"7".to_string()));
}

#[test]
fn snowy_requires_exact_true() {
    assert!(block_with("minecraft:grass_block", &[("snowy", "true")]).snowy());
    assert!(!block_with("minecraft:grass_block", &[("snowy", "false")]).snowy());
    // No boolean coercion of other truthy forms.
    assert!(!block_with("minecraft:grass_block", &[("snowy", "True")]).snowy());
    assert!(!block_with("minecraft:grass_block", &[("snowy", "1")]).snowy());
    assert!(!block_with("minecraft:grass_block", &[]).snowy());
}

#[test]
fn archetype_priority_order() {
    assert_eq!(
        block_with("minecraft:water", &[]).archetype(),
        BlockArchetype::Watery
    );
    assert_eq!(
        block_with("minecraft:air", &[]).archetype(),
        BlockArchetype::Airy
    );
    assert_eq!(
        block_with("minecraft:stone", &[]).archetype(),
        BlockArchetype::Normal
    );
    assert_eq!(
        block_with("minecraft:grass_block", &[("snowy", "true")]).archetype(),
        BlockArchetype::Snowy
    );
}

#[test]
fn snowy_overrides_watery_name() {
    // Archetype precedence: snowy wins even over a watery-set name.
    let b = block_with("minecraft:water", &[("snowy", "true")]);
    assert_eq!(b.archetype(), BlockArchetype::Snowy);
}

#[test]
fn watery_membership_is_exact_match() {
    assert_eq!(
        block_with("minecraft:water", &[]).archetype(),
        BlockArchetype::Watery
    );
    // Not in the fixed set: membership is never a prefix/substring match.
    assert_eq!(
        block_with("minecraft:water_bucket", &[]).archetype(),
        BlockArchetype::Normal
    );
    assert_eq!(
        block_with("minecraft:kelp_plant", &[]).archetype(),
        BlockArchetype::Watery
    );
    assert_eq!(
        block_with("minecraft:cave_air", &[]).archetype(),
        BlockArchetype::Airy
    );
    assert_eq!(
        block_with("minecraft:cave_airy", &[]).archetype(),
        BlockArchetype::Normal
    );
}

#[test]
fn encoding_is_property_order_independent() {
    let b1 = block_with("minecraft:stone", &[("a", "1"), ("b", "2")]);
    let b2 = block_with("minecraft:stone", &[("b", "2"), ("a", "1")]);
    assert_eq!(b1.encoded_description(), b2.encoded_description());
    assert_eq!(b1.encoded_description(), "minecraft:stone|a=1,b=2");
}

#[test]
fn encoding_sorts_properties_by_key() {
    let b = block_with(
        "minecraft:oak_stairs",
        &[("shape", "straight"), ("facing", "north"), ("half", "bottom")],
    );
    assert_eq!(
        b.encoded_description(),
        "minecraft:oak_stairs|facing=north,half=bottom,shape=straight"
    );
}

#[test]
fn encoding_excludes_waterlogged() {
    let b = block_with("minecraft:water", &[("level", "1"), ("waterlogged", "true")]);
    assert_eq!(b.encoded_description(), "minecraft:water|level=1");
}

#[test]
fn encoding_excludes_powered() {
    let b1 = block_with("minecraft:lever", &[("face", "wall"), ("powered", "true")]);
    let b2 = block_with("minecraft:lever", &[("face", "wall"), ("powered", "false")]);
    assert_eq!(b1.encoded_description(), "minecraft:lever|face=wall");
    assert_eq!(b1.encoded_description(), b2.encoded_description());
}

#[test]
fn encoding_of_only_excluded_properties_is_bare() {
    let b = block_with("minecraft:water", &[("waterlogged", "true")]);
    assert_eq!(b.encoded_description(), "minecraft:water|");
}

#[test]
fn string_comparisons() {
    assert!(str_eq("abc", "abc"));
    assert!(!str_eq("abc", "abd"));
    assert!(!str_eq("abc", "ab"));
    assert!(str_lt("ab", "abc"));
    assert!(str_lt("abc", "abd"));
    assert!(!str_lt("abc", "abc"));
    assert!(!str_lt("b", "abc"));
    assert!(str_lt("", "a"));
}
