//! Normalization of Minecraft world data into stable classifications.
//!
//! Two independent, stateless components:
//!
//! - biome resolution: raw biome identifiers (namespaced strings or legacy
//!   numeric codes) resolve to a closed [`Biome`] variant set, and each
//!   variant maps to a fixed [`Climate`] value;
//! - block modelling: a [`Block`] (name plus string properties) derives a
//!   canonical encoded description, used verbatim as a cache key, and a
//!   coarse [`BlockArchetype`].
//!
//! Neither component can fail: unrecognized biome identifiers degrade to
//! `Biome::Unknown` and unmatched block names to `BlockArchetype::Normal`.

mod strings;

pub use strings::{str_eq, str_lt};

mod biome;
mod block;
mod props;

pub use biome::{biome_of_code, biome_of_name, climate_of, legacy_code_of};
pub use biome::{lemma_legacy_code_distinct, lemma_legacy_code_round_trip};
pub use biome::{Biome, Climate};

pub use props::{as_map, entries_of, sorted_by_key, PropertyMap};
pub use props::{encoded_description_spec, excluded_keys, filter_props, is_excluded_key};
pub use props::{lemma_encoding_ignores_excluded, lemma_encoding_respects_map};
pub use props::{pair_str, props_str, props_str_tail};

pub use block::{archetype_spec, is_airy, is_airy_spec, is_watery, is_watery_spec, snowy_spec};
pub use block::{lemma_encoded_description_ignores_excluded, lemma_encoded_description_respects_map};
pub use block::{lemma_snowy_overrides, Block, BlockArchetype};
