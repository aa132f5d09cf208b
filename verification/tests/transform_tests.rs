use pokemon_data::error::{CoercionError, NumericField};
use pokemon_data::record::PokemonCsv;
use pokemon_data::transform::transform;

fn raw_record(name: &str, hp: i64, legendary: bool) -> PokemonCsv {
    PokemonCsv {
        name: name.to_string(),
        pokedex_id: 7,
        abilities: vec!["torrent".to_string()],
        typing: vec!["water".to_string()],
        hp,
        attack: 48,
        defense: 65,
        special_attack: 50,
        special_defense: 64,
        speed: 43,
        height: 5,
        weight: 90,
        generation: 1,
        female_rate: Some(13),
        genderless: false,
        is_legendary_or_mythical: legendary,
        is_default: true,
        forms_switchable: false,
        base_experience: 63,
        capture_rate: 45,
        egg_groups: vec!["monster".to_string(), "water1".to_string()],
        base_happiness: 50,
        evolves_from: None,
        primary_color: "blue".to_string(),
        number_pokemon_with_typing: 4100,
        normal_attack_effectiveness: 100,
        fire_attack_effectiveness: 50,
        water_attack_effectiveness: 50,
        electric_attack_effectiveness: 200,
        grass_attack_effectiveness: 200,
        ice_attack_effectiveness: 50,
        fighting_attack_effectiveness: 100,
        poison_attack_effectiveness: 100,
        ground_attack_effectiveness: 100,
        fly_attack_effectiveness: 100,
        psychic_attack_effectiveness: 100,
        bug_attack_effectiveness: 100,
        rock_attack_effectiveness: 100,
        ghost_attack_effectiveness: 100,
        dragon_attack_effectiveness: 100,
        dark_attack_effectiveness: 100,
        steel_attack_effectiveness: 50,
        fairy_attack_effectiveness: 100,
    }
}

#[test]
fn slug_of_ho_oh() {
    let row = transform(raw_record("Ho Oh", 106, true)).unwrap();
    assert_eq!(row.slug, "ho-oh");
    assert_eq!(row.name, "Ho Oh");
}

#[test]
fn slug_of_squirtle() {
    let row = transform(raw_record("Squirtle", 44, false)).unwrap();
    assert_eq!(row.slug, "squirtle");
}

#[test]
fn slug_strips_punctuation() {
    let row = transform(raw_record("Mr. Mime", 40, false)).unwrap();
    assert_eq!(row.slug, "mr-mime");
}

#[test]
fn coercion_rejects_70000_for_u16() {
    let r = transform(raw_record("Blastoise", 70000, false));
    assert_eq!(
        r.unwrap_err(),
        CoercionError {
            field: NumericField::Hp,
            value: 70000,
        }
    );
}

#[test]
fn coercion_accepts_65535_for_u16() {
    let row = transform(raw_record("Blastoise", 65535, false)).unwrap();
    assert_eq!(row.hp, 65535);
}

#[test]
fn coercion_rejects_negative_value() {
    let r = transform(raw_record("Blastoise", -1, false));
    assert_eq!(
        r.unwrap_err(),
        CoercionError {
            field: NumericField::Hp,
            value: -1,
        }
    );
}

#[test]
fn coercion_reports_first_bad_field() {
    let mut raw = raw_record("Blastoise", 79, false);
    raw.attack = -3;
    raw.speed = 100000;
    let r = transform(raw);
    assert_eq!(
        r.unwrap_err(),
        CoercionError {
            field: NumericField::Attack,
            value: -3,
        }
    );
}

#[test]
fn transform_is_deterministic_up_to_identifier() {
    let raw = raw_record("Ho Oh", 106, true);
    let a = transform(raw.clone()).unwrap();
    let b = transform(raw).unwrap();
    assert_eq!(a.slug, b.slug);
    assert_eq!(a.name, b.name);
    assert_eq!(a.hp, b.hp);
    assert_eq!(a.pokedex_id, b.pokedex_id);
    assert_eq!(a.legendary_or_mythical, b.legendary_or_mythical);
    assert_eq!(a.female_rate, b.female_rate);
    assert_eq!(
        a.electric_attack_effectiveness,
        b.electric_attack_effectiveness
    );
}

#[test]
fn transform_copies_statistics_and_flags() {
    let row = transform(raw_record("Squirtle", 44, false)).unwrap();
    assert_eq!(row.pokedex_id, 7);
    assert_eq!(row.attack, 48);
    assert_eq!(row.defense, 65);
    assert_eq!(row.generation, 1);
    assert_eq!(row.female_rate, Some(13));
    assert!(!row.genderless);
    assert!(!row.legendary_or_mythical);
    assert!(row.is_default);
    assert_eq!(row.primary_color, "blue");
    assert_eq!(row.grass_attack_effectiveness, 200);
    assert_eq!(row.steel_attack_effectiveness, 50);
}
