//! Block identity, archetype classification, and the canonical encoding.

use vstd::prelude::*;

use crate::props::{
    encoded_description_spec, excluded_keys, lemma_encoding_ignores_excluded,
    lemma_encoding_respects_map, PropertyMap,
};
use crate::strings::str_eq;
use vstd::string::StringExecFns;

verus! {

/// Coarse block classification, derived on demand and never stored.
#[derive(Clone, Copy, Debug, PartialEq, Eq, Structural)]
pub enum BlockArchetype {
    Normal,
    Airy,
    Watery,
    Snowy,
}

/// A block identity: a namespaced name plus string-valued properties.
#[derive(Clone, Debug, PartialEq, Eq)]
pub struct Block {
    pub name: String,
    pub properties: PropertyMap,
}

/// The fixed set of names treated as water when determining colour.
pub open spec fn is_watery_spec(name: Seq<char>) -> bool {
    ||| name == "minecraft:water"@
    ||| name == "minecraft:bubble_column"@
    ||| name == "minecraft:kelp"@
    ||| name == "minecraft:kelp_plant"@
    ||| name == "minecraft:sea_grass"@
    ||| name == "minecraft:tall_seagrass"@
}

/// The fixed set of names treated as air when determining colour.
pub open spec fn is_airy_spec(name: Seq<char>) -> bool {
    name == "minecraft:air"@ || name == "minecraft:cave_air"@
}

/// Whether a property mapping marks a block as snowy: the key `snowy` is
/// present with the exact value `true`; no other truthy form counts.
pub open spec fn snowy_spec(props: Map<Seq<char>, Seq<char>>) -> bool {
    props.contains_key("snowy"@) && props["snowy"@] == "true"@
}

/// A block's archetype, in strict priority order: snowy overrides watery,
/// watery overrides airy, and everything else is normal.
pub open spec fn archetype_spec(name: Seq<char>, props: Map<Seq<char>, Seq<char>>) -> BlockArchetype {
    if snowy_spec(props) {
        BlockArchetype::Snowy
    } else if is_watery_spec(name) {
        BlockArchetype::Watery
    } else if is_airy_spec(name) {
        BlockArchetype::Airy
    } else {
        BlockArchetype::Normal
    }
}

/// Blocks that are considered as if they are water when determining
/// colour; exact name match, never a prefix or substring match.
pub fn is_watery(block: &str) -> (r: bool)
    ensures
        r == is_watery_spec(block@),
{
    str_eq(block, "minecraft:water") || str_eq(block, "minecraft:bubble_column") || str_eq(
        block,
        "minecraft:kelp",
    ) || str_eq(block, "minecraft:kelp_plant") || str_eq(block, "minecraft:sea_grass") || str_eq(
        block,
        "minecraft:tall_seagrass",
    )
}

/// Blocks that are considered as if they are air when determining colour;
/// exact name match, never a prefix or substring match.
pub fn is_airy(block: &str) -> (r: bool)
    ensures
        r == is_airy_spec(block@),
{
    str_eq(block, "minecraft:air") || str_eq(block, "minecraft:cave_air")
}

impl Block {
    /// A block with the given name and an empty property mapping.
    pub fn new(name: String) -> (r: Block)
        ensures
            r.name@ == name@,
            r.properties@ == Map::<Seq<char>, Seq<char>>::empty(),
            r.properties.wf(),
    {
        Block { name, properties: PropertyMap::new() }
    }

    /// The block's namespaced name.
    pub fn name(&self) -> (r: &str)
        ensures
            r@ == self.name@,
    {
        self.name.as_str()
    }

    /// Whether the `snowy` property is present with the exact value `true`.
    pub fn snowy(&self) -> (r: bool)
        ensures
            r == snowy_spec(self.properties@),
    {
        match self.properties.get("snowy") {
            Some(v) => str_eq(v.as_str(), "true"),
            None => false,
        }
    }

    /// The block's archetype, in strict priority order.
    pub fn archetype(&self) -> (r: BlockArchetype)
        ensures
            r == archetype_spec(self.name@, self.properties@),
    {
        if self.snowy() {
            BlockArchetype::Snowy
        } else if is_watery(self.name.as_str()) {
            BlockArchetype::Watery
        } else if is_airy(self.name.as_str()) {
            BlockArchetype::Airy
        } else {
            BlockArchetype::Normal
        }
    }

    /// The canonical cache key, `"<name>|<assignments>"`: the non-excluded
    /// properties as `key=value`, sorted by key, joined with `,`. Used
    /// verbatim as a deduplication key downstream; its exact shape is a
    /// wire-level contract.
    pub fn encoded_description(&self) -> (r: String)
        ensures
            r@ == encoded_description_spec(self.name@, self.properties.entries()),
    {
        let mut r = self.name.clone();
        r.append("|");
        let props = self.properties.encoded_props();
        r.append(props.as_str());
        proof {
            assert(r@ =~= encoded_description_spec(self.name@, self.properties.entries()));
        }
        r
    }
}

/// Property-order independence: well-formed blocks with the same name that
/// stand for the same property mapping have the same canonical encoding,
/// whatever order their properties were inserted in.
pub proof fn lemma_encoded_description_respects_map(b1: &Block, b2: &Block)
    requires
        b1.properties.wf(),
        b2.properties.wf(),
        b1.name@ == b2.name@,
        b1.properties@ == b2.properties@,
    ensures
        encoded_description_spec(b1.name@, b1.properties.entries()) == encoded_description_spec(
            b2.name@,
            b2.properties.entries(),
        ),
{
    lemma_encoding_respects_map(b1.name@, &b1.properties, &b2.properties);
}

/// The excluded property keys never affect the canonical encoding: blocks
/// with the same name whose properties agree outside the excluded keys
/// encode identically.
pub proof fn lemma_encoded_description_ignores_excluded(b1: &Block, b2: &Block)
    requires
        b1.properties.wf(),
        b2.properties.wf(),
        b1.name@ == b2.name@,
        b1.properties@.remove_keys(excluded_keys()) == b2.properties@.remove_keys(excluded_keys()),
    ensures
        encoded_description_spec(b1.name@, b1.properties.entries()) == encoded_description_spec(
            b2.name@,
            b2.properties.entries(),
        ),
{
    lemma_encoding_ignores_excluded(b1.name@, &b1.properties, &b2.properties);
}

/// Archetype precedence: a block whose properties mark it snowy classifies
/// as snowy whatever its name, even one in the watery or airy sets.
pub proof fn lemma_snowy_overrides(name: Seq<char>, props: Map<Seq<char>, Seq<char>>)
    requires
        snowy_spec(props),
    ensures
        archetype_spec(name, props) == BlockArchetype::Snowy,
{
}

} // verus!
