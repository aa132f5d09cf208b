//! The two record shapes of the ingestion pipeline: the loosely-typed raw
//! record read from the external tabular source, and the fully-typed storage
//! row it is transformed into.
//!
//! Fractional statistics of the source (the female rate and the per-type
//! attack-effectiveness multipliers) are carried as fixed-point integers in
//! hundredths, so that every field of both records is a plain value.

use vstd::prelude::*;

use crate::id::PokemonId;

verus! {

/// One row as read from the external tabular source, before validation.
/// Numeric statistics arrive as wide `i64` values and are narrowed by the
/// transform; the multi-valued tag fields (`abilities`, `typing`,
/// `egg_groups`) and the lineage reference (`evolves_from`) are read and
/// deliberately discarded in the current scope.
#[derive(Clone, Debug)]
pub struct PokemonCsv {
    pub name: String,
    pub pokedex_id: i64,
    pub abilities: Vec<String>,
    pub typing: Vec<String>,
    pub hp: i64,
    pub attack: i64,
    pub defense: i64,
    pub special_attack: i64,
    pub special_defense: i64,
    pub speed: i64,
    pub height: i64,
    pub weight: i64,
    pub generation: i64,
    pub female_rate: Option<u32>,
    pub genderless: bool,
    pub is_legendary_or_mythical: bool,
    pub is_default: bool,
    pub forms_switchable: bool,
    pub base_experience: i64,
    pub capture_rate: i64,
    pub egg_groups: Vec<String>,
    pub base_happiness: i64,
    pub evolves_from: Option<String>,
    pub primary_color: String,
    pub number_pokemon_with_typing: u32,
    pub normal_attack_effectiveness: u32,
    pub fire_attack_effectiveness: u32,
    pub water_attack_effectiveness: u32,
    pub electric_attack_effectiveness: u32,
    pub grass_attack_effectiveness: u32,
    pub ice_attack_effectiveness: u32,
    pub fighting_attack_effectiveness: u32,
    pub poison_attack_effectiveness: u32,
    pub ground_attack_effectiveness: u32,
    pub fly_attack_effectiveness: u32,
    pub psychic_attack_effectiveness: u32,
    pub bug_attack_effectiveness: u32,
    pub rock_attack_effectiveness: u32,
    pub ghost_attack_effectiveness: u32,
    pub dragon_attack_effectiveness: u32,
    pub dark_attack_effectiveness: u32,
    pub steel_attack_effectiveness: u32,
    pub fairy_attack_effectiveness: u32,
}

/// One fully validated, persistable row: a fresh identifier, the display
/// name, the slug derived from it once at write time, and the statistics
/// narrowed to their storage widths. Statistic columns use `u16`, the
/// narrowest width that holds their legal range; nothing wraps silently.
#[derive(Clone, Debug)]
pub struct PokemonTableRow {
    pub id: PokemonId,
    pub name: String,
    pub slug: String,
    pub pokedex_id: u16,
    pub hp: u16,
    pub attack: u16,
    pub defense: u16,
    pub special_attack: u16,
    pub special_defense: u16,
    pub speed: u16,
    pub height: u16,
    pub weight: u16,
    pub generation: u16,
    pub female_rate: Option<u32>,
    pub genderless: bool,
    pub legendary_or_mythical: bool,
    pub is_default: bool,
    pub forms_switchable: bool,
    pub base_experience: u16,
    pub capture_rate: u16,
    pub base_happiness: u16,
    pub primary_color: String,
    pub number_pokemon_with_typing: u32,
    pub normal_attack_effectiveness: u32,
    pub fire_attack_effectiveness: u32,
    pub water_attack_effectiveness: u32,
    pub electric_attack_effectiveness: u32,
    pub grass_attack_effectiveness: u32,
    pub ice_attack_effectiveness: u32,
    pub fighting_attack_effectiveness: u32,
    pub poison_attack_effectiveness: u32,
    pub ground_attack_effectiveness: u32,
    pub fly_attack_effectiveness: u32,
    pub psychic_attack_effectiveness: u32,
    pub bug_attack_effectiveness: u32,
    pub rock_attack_effectiveness: u32,
    pub ghost_attack_effectiveness: u32,
    pub dragon_attack_effectiveness: u32,
    pub dark_attack_effectiveness: u32,
    pub steel_attack_effectiveness: u32,
    pub fairy_attack_effectiveness: u32,
}

} // verus!
