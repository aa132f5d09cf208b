use pokemon_data::handler::requested_slug;
use pokemon_data::id::PokemonId;
use pokemon_data::persist::{insert_pokemon_params, pokemon_hp_from_columns, ParamValue};
use pokemon_data::record::{PokemonCsv, PokemonTableRow};
use pokemon_data::transform::transform;

fn squirtle_raw() -> PokemonCsv {
    PokemonCsv {
        name: "Squirtle".to_string(),
        pokedex_id: 7,
        abilities: vec!["torrent".to_string(), "rain-dish".to_string()],
        typing: vec!["water".to_string()],
        hp: 44,
        attack: 48,
        defense: 65,
        special_attack: 50,
        special_defense: 64,
        speed: 43,
        height: 5,
        weight: 90,
        generation: 1,
        female_rate: Some(13),
        genderless: false,
        is_legendary_or_mythical: false,
        is_default: true,
        forms_switchable: false,
        base_experience: 63,
        capture_rate: 45,
        egg_groups: vec!["monster".to_string(), "water1".to_string()],
        base_happiness: 50,
        evolves_from: None,
        primary_color: "blue".to_string(),
        number_pokemon_with_typing: 4100,
        normal_attack_effectiveness: 100,
        fire_attack_effectiveness: 50,
        water_attack_effectiveness: 50,
        electric_attack_effectiveness: 200,
        grass_attack_effectiveness: 200,
        ice_attack_effectiveness: 50,
        fighting_attack_effectiveness: 100,
        poison_attack_effectiveness: 100,
        ground_attack_effectiveness: 100,
        fly_attack_effectiveness: 100,
        psychic_attack_effectiveness: 100,
        bug_attack_effectiveness: 100,
        rock_attack_effectiveness: 100,
        ghost_attack_effectiveness: 100,
        dragon_attack_effectiveness: 100,
        dark_attack_effectiveness: 100,
        steel_attack_effectiveness: 50,
        fairy_attack_effectiveness: 100,
    }
}

#[test]
fn insert_params_follow_column_order() {
    let row = transform(squirtle_raw()).unwrap();
    let params = insert_pokemon_params(&row);
    assert_eq!(params.len(), 41);
    match &params[0] {
        ParamValue::Bytes(b) => assert_eq!(*b, row.id.to_storage_bytes()),
        other => panic!("identifier column bound as {:?}", other),
    }
    match &params[1] {
        ParamValue::Text(s) => assert_eq!(s, "squirtle"),
        other => panic!("slug column bound as {:?}", other),
    }
    match &params[2] {
        ParamValue::Text(s) => assert_eq!(s, "Squirtle"),
        other => panic!("name column bound as {:?}", other),
    }
    match &params[4] {
        ParamValue::U16(v) => assert_eq!(*v, 44),
        other => panic!("hp column bound as {:?}", other),
    }
    match &params[13] {
        ParamValue::OptU32(v) => assert_eq!(*v, Some(13)),
        other => panic!("female_rate column bound as {:?}", other),
    }
    match &params[15] {
        ParamValue::Bool(v) => assert!(!*v),
        other => panic!("legendary column bound as {:?}", other),
    }
    match &params[40] {
        ParamValue::U32(v) => assert_eq!(*v, 100),
        other => panic!("fairy effectiveness column bound as {:?}", other),
    }
}

#[test]
fn effectiveness_block_round_trips_in_order() {
    let row = transform(squirtle_raw()).unwrap();
    let params = insert_pokemon_params(&row);
    let expected: [u32; 18] = [
        100, 50, 50, 200, 200, 50, 100, 100, 100, 100, 100, 100, 100, 100, 100, 100, 50, 100,
    ];
    for (offset, want) in expected.iter().enumerate() {
        match &params[23 + offset] {
            ParamValue::U32(v) => assert_eq!(v, want),
            other => panic!("effectiveness column bound as {:?}", other),
        }
    }
}

#[test]
fn insert_then_lookup_squirtle() {
    // The end-to-end path with the store played by a slug-keyed table:
    // transform assigns the identifier and slug, insert hands over the
    // bound columns, and the lookup decodes the row those columns held.
    let row = transform(squirtle_raw()).unwrap();
    let mut table: Vec<(String, Vec<ParamValue>)> = Vec::new();
    table.push((row.slug.clone(), insert_pokemon_params(&row)));

    let slug_bytes = requested_slug(b"/api/pokemon/squirtle").unwrap();
    let slug = String::from_utf8(slug_bytes).unwrap();
    let (_, columns) = table.iter().find(|(s, _)| *s == slug).unwrap();

    let id_bytes = match &columns[0] {
        ParamValue::Bytes(b) => b.clone(),
        other => panic!("identifier column bound as {:?}", other),
    };
    let name = match &columns[2] {
        ParamValue::Text(s) => s.clone(),
        other => panic!("name column bound as {:?}", other),
    };
    let hp = match &columns[4] {
        ParamValue::U16(v) => *v,
        other => panic!("hp column bound as {:?}", other),
    };
    let legendary = match &columns[15] {
        ParamValue::Bool(v) => *v,
        other => panic!("legendary column bound as {:?}", other),
    };
    let found = pokemon_hp_from_columns(&id_bytes, name, hp, legendary).unwrap();
    assert_eq!(found.name, "Squirtle");
    assert_eq!(found.hp, 44);
    assert!(!found.legendary_or_mythical);
    let text = found.id.to_canonical_text();
    assert_eq!(PokemonId::from_canonical_text(&text), Ok(found.id));
    assert_eq!(found.id, row.id);
}

#[test]
fn empty_slug_is_rejected_before_persistence() {
    // A path whose last segment is empty never produces a lookup key, so
    // nothing is ever asked of the store.
    assert!(requested_slug(b"/api/pokemon//").is_none());
}

#[test]
fn transformed_row_keeps_dropped_fields_out() {
    let mut raw = squirtle_raw();
    raw.abilities.clear();
    raw.typing.clear();
    raw.egg_groups.clear();
    raw.evolves_from = Some("wartortle".to_string());
    let a = transform(raw).unwrap();
    let b = transform(squirtle_raw()).unwrap();
    assert_eq!(a.slug, b.slug);
    assert_eq!(a.hp, b.hp);
    assert_eq!(a.name, b.name);
}

#[test]
fn storage_row_field_check() {
    let row: PokemonTableRow = transform(squirtle_raw()).unwrap();
    assert_eq!(row.pokedex_id, 7);
    assert_eq!(row.capture_rate, 45);
    assert_eq!(row.base_happiness, 50);
    assert_eq!(row.number_pokemon_with_typing, 4100);
}
