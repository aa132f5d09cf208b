//! The compute side of the insertion pipeline and of the lookup read path.
//!
//! Persisting a row is a single parameterized insert: every column is bound
//! as a typed parameter, never interpolated into the statement text. This
//! module builds that parameter list in the fixed column order and proves
//! it; performing the statement against the store is left to the caller
//! that owns the connection. On the read path it rebuilds the in-memory
//! row from the fetched column values, decoding the identifier bytes.

use vstd::prelude::*;

use crate::error::DecodeError;
use crate::id::{id_of_storage_bytes, storage_bytes_of, PokemonId};
use crate::record::PokemonTableRow;

verus! {

/// One value bound to a parameter of the insert statement.
#[derive(Clone, Debug)]
pub enum ParamValue {
    Bytes(Vec<u8>),
    Text(String),
    U16(u16),
    U32(u32),
    Bool(bool),
    OptU32(Option<u32>),
}

/// The mathematical reading of one bound parameter.
pub enum ParamModel {
    Bytes(Seq<u8>),
    Text(Seq<char>),
    U16(u16),
    U32(u32),
    Bool(bool),
    OptU32(Option<u32>),
}

impl View for ParamValue {
    type V = ParamModel;

    open spec fn view(&self) -> ParamModel {
        match self {
            ParamValue::Bytes(b) => ParamModel::Bytes(b@),
            ParamValue::Text(s) => ParamModel::Text(s@),
            ParamValue::U16(v) => ParamModel::U16(*v),
            ParamValue::U32(v) => ParamModel::U32(*v),
            ParamValue::Bool(v) => ParamModel::Bool(*v),
            ParamValue::OptU32(v) => ParamModel::OptU32(*v),
        }
    }
}

/// The reading of a whole parameter list.
pub open spec fn params_model(s: Seq<ParamValue>) -> Seq<ParamModel> {
    s.map_values(|p: ParamValue| p@)
}

/// The parameters of the single-row insert, in the fixed column order of
/// the `pokemon` table: identifier bytes first, then slug, name, and the
/// typed statistics; the eighteen attack-effectiveness multipliers keep
/// their order, so the whole block round-trips through storage unchanged.
pub open spec fn insert_params_of(row: PokemonTableRow) -> Seq<ParamModel> {
    seq![
        ParamModel::Bytes(storage_bytes_of(row.id)),
        ParamModel::Text(row.slug@),
        ParamModel::Text(row.name@),
        ParamModel::U16(row.pokedex_id),
        ParamModel::U16(row.hp),
        ParamModel::U16(row.attack),
        ParamModel::U16(row.defense),
        ParamModel::U16(row.special_attack),
        ParamModel::U16(row.special_defense),
        ParamModel::U16(row.speed),
        ParamModel::U16(row.height),
        ParamModel::U16(row.weight),
        ParamModel::U16(row.generation),
        ParamModel::OptU32(row.female_rate),
        ParamModel::Bool(row.genderless),
        ParamModel::Bool(row.legendary_or_mythical),
        ParamModel::Bool(row.is_default),
        ParamModel::Bool(row.forms_switchable),
        ParamModel::U16(row.base_experience),
        ParamModel::U16(row.capture_rate),
        ParamModel::U16(row.base_happiness),
        ParamModel::Text(row.primary_color@),
        ParamModel::U32(row.number_pokemon_with_typing),
        ParamModel::U32(row.normal_attack_effectiveness),
        ParamModel::U32(row.fire_attack_effectiveness),
        ParamModel::U32(row.water_attack_effectiveness),
        ParamModel::U32(row.electric_attack_effectiveness),
        ParamModel::U32(row.grass_attack_effectiveness),
        ParamModel::U32(row.ice_attack_effectiveness),
        ParamModel::U32(row.fighting_attack_effectiveness),
        ParamModel::U32(row.poison_attack_effectiveness),
        ParamModel::U32(row.ground_attack_effectiveness),
        ParamModel::U32(row.fly_attack_effectiveness),
        ParamModel::U32(row.psychic_attack_effectiveness),
        ParamModel::U32(row.bug_attack_effectiveness),
        ParamModel::U32(row.rock_attack_effectiveness),
        ParamModel::U32(row.ghost_attack_effectiveness),
        ParamModel::U32(row.dragon_attack_effectiveness),
        ParamModel::U32(row.dark_attack_effectiveness),
        ParamModel::U32(row.steel_attack_effectiveness),
        ParamModel::U32(row.fairy_attack_effectiveness),
    ]
}

/// Builds the bound-parameter list for inserting one storage row: all 41
/// columns, in the fixed order, with the identifier as its storage bytes.
/// The caller hands this list, one parameter at a time, to the store's
/// prepared statement.
pub fn insert_pokemon_params(row: &PokemonTableRow) -> (r: Vec<ParamValue>)
    ensures
        params_model(r@) == insert_params_of(*row),
{
    let mut r: Vec<ParamValue> = Vec::new();
    r.push(ParamValue::Bytes(row.id.to_storage_bytes()));
    r.push(ParamValue::Text(row.slug.clone()));
    r.push(ParamValue::Text(row.name.clone()));
    r.push(ParamValue::U16(row.pokedex_id));
    r.push(ParamValue::U16(row.hp));
    r.push(ParamValue::U16(row.attack));
    r.push(ParamValue::U16(row.defense));
    r.push(ParamValue::U16(row.special_attack));
    r.push(ParamValue::U16(row.special_defense));
    r.push(ParamValue::U16(row.speed));
    r.push(ParamValue::U16(row.height));
    r.push(ParamValue::U16(row.weight));
    r.push(ParamValue::U16(row.generation));
    r.push(ParamValue::OptU32(row.female_rate));
    r.push(ParamValue::Bool(row.genderless));
    r.push(ParamValue::Bool(row.legendary_or_mythical));
    r.push(ParamValue::Bool(row.is_default));
    r.push(ParamValue::Bool(row.forms_switchable));
    r.push(ParamValue::U16(row.base_experience));
    r.push(ParamValue::U16(row.capture_rate));
    r.push(ParamValue::U16(row.base_happiness));
    r.push(ParamValue::Text(row.primary_color.clone()));
    r.push(ParamValue::U32(row.number_pokemon_with_typing));
    r.push(ParamValue::U32(row.normal_attack_effectiveness));
    r.push(ParamValue::U32(row.fire_attack_effectiveness));
    r.push(ParamValue::U32(row.water_attack_effectiveness));
    r.push(ParamValue::U32(row.electric_attack_effectiveness));
    r.push(ParamValue::U32(row.grass_attack_effectiveness));
    r.push(ParamValue::U32(row.ice_attack_effectiveness));
    r.push(ParamValue::U32(row.fighting_attack_effectiveness));
    r.push(ParamValue::U32(row.poison_attack_effectiveness));
    r.push(ParamValue::U32(row.ground_attack_effectiveness));
    r.push(ParamValue::U32(row.fly_attack_effectiveness));
    r.push(ParamValue::U32(row.psychic_attack_effectiveness));
    r.push(ParamValue::U32(row.bug_attack_effectiveness));
    r.push(ParamValue::U32(row.rock_attack_effectiveness));
    r.push(ParamValue::U32(row.ghost_attack_effectiveness));
    r.push(ParamValue::U32(row.dragon_attack_effectiveness));
    r.push(ParamValue::U32(row.dark_attack_effectiveness));
    r.push(ParamValue::U32(row.steel_attack_effectiveness));
    r.push(ParamValue::U32(row.fairy_attack_effectiveness));
    proof {
        assert(params_model(r@) =~= insert_params_of(*row));
    }
    r
}

/// The columns the lookup fetches for one row, rebuilt in memory: the
/// decoded identifier and the fields the lookup service answers with.
#[derive(Clone, Debug)]
pub struct PokemonHp {
    pub id: PokemonId,
    pub name: String,
    pub hp: u16,
    pub legendary_or_mythical: bool,
}

/// Rebuilds a fetched lookup row from its raw column values. The
/// identifier column must hold exactly the fixed-width storage bytes; any
/// other width is storage corruption, reported as a decode error rather
/// than a panic.
pub fn pokemon_hp_from_columns(
    id_bytes: &[u8],
    name: String,
    hp: u16,
    legendary_or_mythical: bool,
) -> (r: Result<PokemonHp, DecodeError>)
    ensures
        id_bytes@.len() != 20 ==> r == Err::<PokemonHp, DecodeError>(DecodeError::InvalidLength),
        r matches Ok(row) ==> {
            &&& id_bytes@.len() == 20
            &&& row.id == id_of_storage_bytes(id_bytes@)
            &&& row.name@ == name@
            &&& row.hp == hp
            &&& row.legendary_or_mythical == legendary_or_mythical
        },
        id_bytes@.len() == 20 ==> r is Ok,
{
    match PokemonId::from_storage_bytes(id_bytes) {
        Ok(id) => Ok(PokemonHp { id, name, hp, legendary_or_mythical }),
        Err(e) => Err(e),
    }
}

} // verus!
