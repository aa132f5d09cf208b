//! The row transform: the pure conversion of a raw external record into a
//! storage row. It derives the slug from the display name, assigns one fresh
//! identifier, and narrows each loosely-typed numeric field to its storage
//! width; a value outside the target range aborts the transform for that
//! record with a `CoercionError` naming the field.

use vstd::prelude::*;

use crate::error::{CoercionError, NumericField};
use crate::id::PokemonId;
use crate::record::{PokemonCsv, PokemonTableRow};

verus! {

/// The slug the kebab-case conversion derives from a display name: a pure
/// function of the characters alone.
pub uninterp spec fn kebab_of(s: Seq<char>) -> Seq<char>;

/// Relies on `inflector::cases::kebabcase::to_kebab_case`: lower-cases the
/// words of the name and joins them with hyphens, reading nothing but the
/// characters, so the result is a function of the name alone; an empty name
/// yields an empty slug.
#[verifier::external_body]
fn kebab_case_of(name: &str) -> (r: String)
    ensures
        r@ == kebab_of(name@),
        name@.len() == 0 ==> r@.len() == 0,
{
    inflector::cases::kebabcase::to_kebab_case(name)
}

/// Whether a raw numeric value fits the 16-bit unsigned storage width.
pub open spec fn fits_u16(v: i64) -> bool {
    0 <= v <= 65535
}

/// The raw value of the numeric field a transform narrows.
pub open spec fn raw_field_value(raw: PokemonCsv, f: NumericField) -> i64 {
    match f {
        NumericField::PokedexId => raw.pokedex_id,
        NumericField::Hp => raw.hp,
        NumericField::Attack => raw.attack,
        NumericField::Defense => raw.defense,
        NumericField::SpecialAttack => raw.special_attack,
        NumericField::SpecialDefense => raw.special_defense,
        NumericField::Speed => raw.speed,
        NumericField::Height => raw.height,
        NumericField::Weight => raw.weight,
        NumericField::Generation => raw.generation,
        NumericField::BaseExperience => raw.base_experience,
        NumericField::CaptureRate => raw.capture_rate,
        NumericField::BaseHappiness => raw.base_happiness,
    }
}

/// The order in which the transform narrows the numeric fields, and so the
/// field a failed transform reports: the first one out of range.
pub open spec fn coercion_order() -> Seq<NumericField> {
    seq![
        NumericField::PokedexId,
        NumericField::Hp,
        NumericField::Attack,
        NumericField::Defense,
        NumericField::SpecialAttack,
        NumericField::SpecialDefense,
        NumericField::Speed,
        NumericField::Height,
        NumericField::Weight,
        NumericField::Generation,
        NumericField::BaseExperience,
        NumericField::CaptureRate,
        NumericField::BaseHappiness,
    ]
}

/// Whether every numeric field of a raw record fits its storage width.
pub open spec fn all_fields_fit(raw: PokemonCsv) -> bool {
    forall|i: int|
        0 <= i < coercion_order().len() ==> fits_u16(raw_field_value(raw, coercion_order()[i]))
}

/// The error a failed transform reports: the first field, in coercion
/// order, whose raw value is out of range, together with that value.
pub open spec fn first_coercion_error(raw: PokemonCsv) -> CoercionError
    decreases coercion_order().len(),
{
    first_coercion_error_from(raw, 0)
}

/// The first out-of-range field at or after position `i` of the coercion
/// order.
pub open spec fn first_coercion_error_from(raw: PokemonCsv, i: int) -> CoercionError
    decreases coercion_order().len() - i,
{
    if i < 0 || i >= coercion_order().len() {
        CoercionError { field: NumericField::PokedexId, value: 0 }
    } else if !fits_u16(raw_field_value(raw, coercion_order()[i])) {
        CoercionError {
            field: coercion_order()[i],
            value: raw_field_value(raw, coercion_order()[i]),
        }
    } else {
        first_coercion_error_from(raw, i + 1)
    }
}

/// How a storage row produced by a successful transform relates to the raw
/// record it came from: everything but the identifier, which is fresh and
/// random, is a function of the raw record.
pub open spec fn transformed_from(raw: PokemonCsv, row: PokemonTableRow) -> bool {
    &&& row.name@ == raw.name@
    &&& row.slug@ == kebab_of(raw.name@)
    &&& row.pokedex_id == raw.pokedex_id as u16
    &&& row.hp == raw.hp as u16
    &&& row.attack == raw.attack as u16
    &&& row.defense == raw.defense as u16
    &&& row.special_attack == raw.special_attack as u16
    &&& row.special_defense == raw.special_defense as u16
    &&& row.speed == raw.speed as u16
    &&& row.height == raw.height as u16
    &&& row.weight == raw.weight as u16
    &&& row.generation == raw.generation as u16
    &&& row.female_rate == raw.female_rate
    &&& row.genderless == raw.genderless
    &&& row.legendary_or_mythical == raw.is_legendary_or_mythical
    &&& row.is_default == raw.is_default
    &&& row.forms_switchable == raw.forms_switchable
    &&& row.base_experience == raw.base_experience as u16
    &&& row.capture_rate == raw.capture_rate as u16
    &&& row.base_happiness == raw.base_happiness as u16
    &&& row.primary_color@ == raw.primary_color@
    &&& row.number_pokemon_with_typing == raw.number_pokemon_with_typing
    &&& row.normal_attack_effectiveness == raw.normal_attack_effectiveness
    &&& row.fire_attack_effectiveness == raw.fire_attack_effectiveness
    &&& row.water_attack_effectiveness == raw.water_attack_effectiveness
    &&& row.electric_attack_effectiveness == raw.electric_attack_effectiveness
    &&& row.grass_attack_effectiveness == raw.grass_attack_effectiveness
    &&& row.ice_attack_effectiveness == raw.ice_attack_effectiveness
    &&& row.fighting_attack_effectiveness == raw.fighting_attack_effectiveness
    &&& row.poison_attack_effectiveness == raw.poison_attack_effectiveness
    &&& row.ground_attack_effectiveness == raw.ground_attack_effectiveness
    &&& row.fly_attack_effectiveness == raw.fly_attack_effectiveness
    &&& row.psychic_attack_effectiveness == raw.psychic_attack_effectiveness
    &&& row.bug_attack_effectiveness == raw.bug_attack_effectiveness
    &&& row.rock_attack_effectiveness == raw.rock_attack_effectiveness
    &&& row.ghost_attack_effectiveness == raw.ghost_attack_effectiveness
    &&& row.dragon_attack_effectiveness == raw.dragon_attack_effectiveness
    &&& row.dark_attack_effectiveness == raw.dark_attack_effectiveness
    &&& row.steel_attack_effectiveness == raw.steel_attack_effectiveness
    &&& row.fairy_attack_effectiveness == raw.fairy_attack_effectiveness
}

/// Narrows one raw numeric value to the 16-bit storage width, reporting the
/// named field on failure rather than truncating.
fn coerce_u16(field: NumericField, v: i64) -> (r: Result<u16, CoercionError>)
    ensures
        fits_u16(v) ==> r == Ok::<u16, CoercionError>(v as u16),
        !fits_u16(v) ==> r == Err::<u16, CoercionError>(CoercionError { field, value: v }),
{
    if 0 <= v && v <= 65535 {
        Ok(v as u16)
    } else {
        Err(CoercionError { field, value: v })
    }
}

/// Converts one raw external record into a storage row: derives the slug
/// from the display name, assigns exactly one fresh identifier, narrows
/// every numeric field, and discards the multi-valued tag fields. Succeeds
/// exactly when every numeric field fits its storage width; otherwise it
/// reports the first field out of range and leaves nothing behind.
pub fn transform(raw: PokemonCsv) -> (r: Result<PokemonTableRow, CoercionError>)
    ensures
        r is Ok <==> all_fields_fit(raw),
        r matches Ok(row) ==> transformed_from(raw, row),
        r matches Err(e) ==> e == first_coercion_error(raw),
{
    let pokedex_id = match coerce_u16(NumericField::PokedexId, raw.pokedex_id) {
        Ok(v) => v,
        Err(e) => {
            proof {
                lemma_first_error_here(raw, 0);
            }
            return Err(e);
        },
    };
    let hp = match coerce_u16(NumericField::Hp, raw.hp) {
        Ok(v) => v,
        Err(e) => {
            proof {
                lemma_first_error_here(raw, 1);
            }
            return Err(e);
        },
    };
    let attack = match coerce_u16(NumericField::Attack, raw.attack) {
        Ok(v) => v,
        Err(e) => {
            proof {
                lemma_first_error_here(raw, 2);
            }
            return Err(e);
        },
    };
    let defense = match coerce_u16(NumericField::Defense, raw.defense) {
        Ok(v) => v,
        Err(e) => {
            proof {
                lemma_first_error_here(raw, 3);
            }
            return Err(e);
        },
    };
    let special_attack = match coerce_u16(NumericField::SpecialAttack, raw.special_attack) {
        Ok(v) => v,
        Err(e) => {
            proof {
                lemma_first_error_here(raw, 4);
            }
            return Err(e);
        },
    };
    let special_defense = match coerce_u16(NumericField::SpecialDefense, raw.special_defense) {
        Ok(v) => v,
        Err(e) => {
            proof {
                lemma_first_error_here(raw, 5);
            }
            return Err(e);
        },
    };
    let speed = match coerce_u16(NumericField::Speed, raw.speed) {
        Ok(v) => v,
        Err(e) => {
            proof {
                lemma_first_error_here(raw, 6);
            }
            return Err(e);
        },
    };
    let height = match coerce_u16(NumericField::Height, raw.height) {
        Ok(v) => v,
        Err(e) => {
            proof {
                lemma_first_error_here(raw, 7);
            }
            return Err(e);
        },
    };
    let weight = match coerce_u16(NumericField::Weight, raw.weight) {
        Ok(v) => v,
        Err(e) => {
            proof {
                lemma_first_error_here(raw, 8);
            }
            return Err(e);
        },
    };
    let generation = match coerce_u16(NumericField::Generation, raw.generation) {
        Ok(v) => v,
        Err(e) => {
            proof {
                lemma_first_error_here(raw, 9);
            }
            return Err(e);
        },
    };
    let base_experience = match coerce_u16(NumericField::BaseExperience, raw.base_experience) {
        Ok(v) => v,
        Err(e) => {
            proof {
                lemma_first_error_here(raw, 10);
            }
            return Err(e);
        },
    };
    let capture_rate = match coerce_u16(NumericField::CaptureRate, raw.capture_rate) {
        Ok(v) => v,
        Err(e) => {
            proof {
                lemma_first_error_here(raw, 11);
            }
            return Err(e);
        },
    };
    let base_happiness = match coerce_u16(NumericField::BaseHappiness, raw.base_happiness) {
        Ok(v) => v,
        Err(e) => {
            proof {
                lemma_first_error_here(raw, 12);
            }
            return Err(e);
        },
    };
    let slug = kebab_case_of(raw.name.as_str());
    let id = PokemonId::new();
    proof {
        assert(all_fields_fit(raw)) by {
            assert forall|i: int| 0 <= i < coercion_order().len() implies fits_u16(
                raw_field_value(raw, coercion_order()[i]),
            ) by {
                assert(coercion_order()[i] == seq![
                    NumericField::PokedexId,
                    NumericField::Hp,
                    NumericField::Attack,
                    NumericField::Defense,
                    NumericField::SpecialAttack,
                    NumericField::SpecialDefense,
                    NumericField::Speed,
                    NumericField::Height,
                    NumericField::Weight,
                    NumericField::Generation,
                    NumericField::BaseExperience,
                    NumericField::CaptureRate,
                    NumericField::BaseHappiness,
                ][i]);
            }
        }
    }
    Ok(
        PokemonTableRow {
            id,
            name: raw.name,
            slug,
            pokedex_id,
            hp,
            attack,
            defense,
            special_attack,
            special_defense,
            speed,
            height,
            weight,
            generation,
            female_rate: raw.female_rate,
            genderless: raw.genderless,
            legendary_or_mythical: raw.is_legendary_or_mythical,
            is_default: raw.is_default,
            forms_switchable: raw.forms_switchable,
            base_experience,
            capture_rate,
            base_happiness,
            primary_color: raw.primary_color,
            number_pokemon_with_typing: raw.number_pokemon_with_typing,
            normal_attack_effectiveness: raw.normal_attack_effectiveness,
            fire_attack_effectiveness: raw.fire_attack_effectiveness,
            water_attack_effectiveness: raw.water_attack_effectiveness,
            electric_attack_effectiveness: raw.electric_attack_effectiveness,
            grass_attack_effectiveness: raw.grass_attack_effectiveness,
            ice_attack_effectiveness: raw.ice_attack_effectiveness,
            fighting_attack_effectiveness: raw.fighting_attack_effectiveness,
            poison_attack_effectiveness: raw.poison_attack_effectiveness,
            ground_attack_effectiveness: raw.ground_attack_effectiveness,
            fly_attack_effectiveness: raw.fly_attack_effectiveness,
            psychic_attack_effectiveness: raw.psychic_attack_effectiveness,
            bug_attack_effectiveness: raw.bug_attack_effectiveness,
            rock_attack_effectiveness: raw.rock_attack_effectiveness,
            ghost_attack_effectiveness: raw.ghost_attack_effectiveness,
            dragon_attack_effectiveness: raw.dragon_attack_effectiveness,
            dark_attack_effectiveness: raw.dark_attack_effectiveness,
            steel_attack_effectiveness: raw.steel_attack_effectiveness,
            fairy_attack_effectiveness: raw.fairy_attack_effectiveness,
        },
    )
}

/// When the fields before position `i` of the coercion order fit and the
/// field at `i` does not, the first reported error is the one at `i`.
proof fn lemma_first_error_here(raw: PokemonCsv, i: int)
    requires
        0 <= i < coercion_order().len(),
        forall|j: int| 0 <= j < i ==> fits_u16(raw_field_value(raw, coercion_order()[j])),
        !fits_u16(raw_field_value(raw, coercion_order()[i])),
    ensures
        first_coercion_error(raw) == (CoercionError {
            field: coercion_order()[i],
            value: raw_field_value(raw, coercion_order()[i]),
        }),
        !all_fields_fit(raw),
{
    lemma_first_error_from(raw, 0, i);
}

/// Walks the coercion order from `j` up to the known-bad position `i`.
proof fn lemma_first_error_from(raw: PokemonCsv, j: int, i: int)
    requires
        0 <= j <= i < coercion_order().len(),
        forall|k: int| j <= k < i ==> fits_u16(raw_field_value(raw, coercion_order()[k])),
        !fits_u16(raw_field_value(raw, coercion_order()[i])),
    ensures
        first_coercion_error_from(raw, j) == (CoercionError {
            field: coercion_order()[i],
            value: raw_field_value(raw, coercion_order()[i]),
        }),
    decreases i - j,
{
    if j < i {
        lemma_first_error_from(raw, j + 1, i);
    }
}

/// Law: the transform is deterministic. Two storage rows produced from the
/// same raw record agree on the slug and on every stored field except the
/// freshly assigned identifier.
pub proof fn lemma_transform_deterministic(
    raw: PokemonCsv,
    a: PokemonTableRow,
    b: PokemonTableRow,
)
    requires
        transformed_from(raw, a),
        transformed_from(raw, b),
    ensures
        a.slug@ == b.slug@,
        a.name@ == b.name@,
        a.pokedex_id == b.pokedex_id,
        a.hp == b.hp,
        a.attack == b.attack,
        a.defense == b.defense,
        a.special_attack == b.special_attack,
        a.special_defense == b.special_defense,
        a.speed == b.speed,
        a.height == b.height,
        a.weight == b.weight,
        a.generation == b.generation,
        a.female_rate == b.female_rate,
        a.genderless == b.genderless,
        a.legendary_or_mythical == b.legendary_or_mythical,
        a.is_default == b.is_default,
        a.forms_switchable == b.forms_switchable,
        a.base_experience == b.base_experience,
        a.capture_rate == b.capture_rate,
        a.base_happiness == b.base_happiness,
        a.primary_color@ == b.primary_color@,
        a.number_pokemon_with_typing == b.number_pokemon_with_typing,
{
}

} // verus!
