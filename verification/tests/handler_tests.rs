use pokemon_data::handler::requested_slug;
use pokemon_data::persist::PokemonHp;
use pokemon_data::record::PokemonCsv;
use pokemon_data::transform::transform;

fn raw_record(name: &str, hp: i64, legendary: bool) -> PokemonCsv {
    PokemonCsv {
        name: name.to_string(),
        pokedex_id: 1,
        abilities: vec![],
        typing: vec![],
        hp,
        attack: 10,
        defense: 10,
        special_attack: 10,
        special_defense: 10,
        speed: 10,
        height: 10,
        weight: 10,
        generation: 1,
        female_rate: None,
        genderless: false,
        is_legendary_or_mythical: legendary,
        is_default: true,
        forms_switchable: false,
        base_experience: 10,
        capture_rate: 10,
        egg_groups: vec![],
        base_happiness: 10,
        evolves_from: None,
        primary_color: "red".to_string(),
        number_pokemon_with_typing: 100,
        normal_attack_effectiveness: 100,
        fire_attack_effectiveness: 100,
        water_attack_effectiveness: 100,
        electric_attack_effectiveness: 100,
        grass_attack_effectiveness: 100,
        ice_attack_effectiveness: 100,
        fighting_attack_effectiveness: 100,
        poison_attack_effectiveness: 100,
        ground_attack_effectiveness: 100,
        fly_attack_effectiveness: 100,
        psychic_attack_effectiveness: 100,
        bug_attack_effectiveness: 100,
        rock_attack_effectiveness: 100,
        ghost_attack_effectiveness: 100,
        dragon_attack_effectiveness: 100,
        dark_attack_effectiveness: 100,
        steel_attack_effectiveness: 100,
        fairy_attack_effectiveness: 100,
    }
}

/// A slug-keyed table standing in for the store, as the lookup handler
/// sees it: the handler itself only routes, validates and decodes.
fn seeded_store() -> Vec<(String, PokemonHp)> {
    let mut store = Vec::new();
    for (name, hp, legendary) in [
        ("Ho Oh", 106, true),
        ("Squirtle", 44, false),
        ("Bulbasaur", 45, false),
    ] {
        let row = transform(raw_record(name, hp, legendary)).unwrap();
        let hp_row = pokemon_data::persist::pokemon_hp_from_columns(
            &row.id.to_storage_bytes(),
            row.name.clone(),
            row.hp,
            row.legendary_or_mythical,
        )
        .unwrap();
        store.push((row.slug.clone(), hp_row));
    }
    store
}

fn handle(store: &[(String, PokemonHp)], path: &str) -> (u16, String) {
    match requested_slug(path.as_bytes()) {
        None => (400, "{\"error\":\"searched for empty pokemon\"}".to_string()),
        Some(slug_bytes) => {
            let slug = String::from_utf8(slug_bytes).unwrap();
            match store.iter().find(|(s, _)| *s == slug) {
                None => (404, "{\"error\":\"no such pokemon\"}".to_string()),
                Some((_, row)) => {
                    let body = format!(
                        "{{\"id\":\"{}\",\"name\":\"{}\",\"hp\":{},\"legendary_or_mythical\":{}}}",
                        row.id.to_canonical_text(),
                        row.name,
                        row.hp,
                        row.legendary_or_mythical
                    );
                    (200, body)
                }
            }
        }
    }
}

#[test]
fn handler_handles_ho_oh() {
    let store = seeded_store();
    let (status, body) = handle(&store, "/api/pokemon/ho-oh");
    assert_eq!(status, 200);
    assert!(body.contains("\"name\":\"Ho Oh\""));
    assert!(body.contains("\"hp\":106"));
    assert!(body.contains("\"legendary_or_mythical\":true"));
}

#[test]
fn handler_handles_squirtle() {
    let store = seeded_store();
    let (status, body) = handle(&store, "/api/pokemon/squirtle");
    assert_eq!(status, 200);
    assert!(body.contains("\"name\":\"Squirtle\""));
    assert!(body.contains("\"hp\":44"));
    assert!(body.contains("\"legendary_or_mythical\":false"));
}

#[test]
fn handler_handles_bulbasaur() {
    let store = seeded_store();
    let (status, body) = handle(&store, "/api/pokemon/bulbasaur");
    assert_eq!(status, 200);
    assert!(body.contains("\"name\":\"Bulbasaur\""));
    assert!(body.contains("\"hp\":45"));
}

#[test]
fn handler_handles_empty_pokemon() {
    let store = seeded_store();
    let (status, body) = handle(&store, "/api/pokemon//");
    assert_eq!(status, 400);
    assert!(body.contains("searched for empty pokemon"));
}

#[test]
fn requested_slug_takes_last_segment() {
    assert_eq!(
        requested_slug(b"/api/pokemon/ho-oh"),
        Some(b"ho-oh".to_vec())
    );
    assert_eq!(requested_slug(b"squirtle"), Some(b"squirtle".to_vec()));
    assert_eq!(requested_slug(b"/api/pokemon//"), None);
    assert_eq!(requested_slug(b""), None);
    assert_eq!(requested_slug(b"/"), None);
}
