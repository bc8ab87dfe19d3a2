use whos_this_pokemon::ConfigError;
use whos_this_pokemon::ConfigOverrides;
use whos_this_pokemon::FlavorTextEntries;
use whos_this_pokemon::Language;
use whos_this_pokemon::MyConfig;
use whos_this_pokemon::PokemonSpeciesResponse;
use whos_this_pokemon::ResolutionError;
use whos_this_pokemon::Session;
use whos_this_pokemon::Version;
use whos_this_pokemon::merge_config;
use whos_this_pokemon::normalize_guess;
use whos_this_pokemon::sanitize_text;
use whos_this_pokemon::select_id;
use whos_this_pokemon::select_id_from;

fn entry(lang: &str, ver: &str, text: &str) -> FlavorTextEntries {
    FlavorTextEntries {
        flavor_text: text.to_string(),
        language: Language { name: lang.to_string() },
        version: Version { name: ver.to_string() },
    }
}

fn species(name: &str, entries: Vec<FlavorTextEntries>) -> PokemonSpeciesResponse {
    PokemonSpeciesResponse { name: name.to_string(), flavor_text_entries: entries }
}

fn config(lang: &str, ver: &str, generation: usize, rounds: u32) -> MyConfig {
    MyConfig {
        version: ver.to_string(),
        language: lang.to_string(),
        generation,
        rounds,
    }
}

const GEN_BOUNDARIES: [u16; 9] = [151, 251, 386, 493, 649, 721, 809, 905, 1008];

#[test]
fn sanitize_replaces_newlines_and_form_feeds() {
    assert_eq!(sanitize_text("a\nb\u{0C}c"), "a b c");
    assert_eq!(sanitize_text("\n\u{0C}"), "  ");
    assert_eq!(sanitize_text("plain text"), "plain text");
    assert_eq!(sanitize_text(""), "");
}

#[test]
fn sanitize_keeps_other_whitespace() {
    assert_eq!(sanitize_text("  a\tb\r"), "  a\tb\r");
}

#[test]
fn sanitize_is_idempotent_on_samples() {
    for s in ["a\nb\u{0C}c", "", "x\n\ny", "already clean"] {
        let once = sanitize_text(s);
        let twice = sanitize_text(&once);
        assert_eq!(once, twice);
    }
}

#[test]
fn sanitize_output_has_no_breaks() {
    let out = sanitize_text("line\nbreak\u{0C}page\nmore");
    assert!(!out.contains('\n'));
    assert!(!out.contains('\u{0C}'));
}

#[test]
fn normalize_guess_trims_and_lowercases() {
    assert_eq!(normalize_guess(" PIKACHU \n"), "pikachu");
    assert_eq!(normalize_guess("Bulbasaur"), "bulbasaur");
    assert_eq!(normalize_guess("\t\r mew \u{0B}\u{0C}"), "mew");
    assert_eq!(normalize_guess("   "), "");
    assert_eq!(normalize_guess(""), "");
    assert_eq!(normalize_guess("mr. mime"), "mr. mime");
}

#[test]
fn normalize_guess_handles_unicode() {
    // no-break space and ideographic space are whitespace to str::trim
    assert_eq!(normalize_guess("\u{00A0}pikachu\n"), "pikachu");
    assert_eq!(normalize_guess("\u{2000}PIKACHU\u{3000}"), "pikachu");
    // the Kelvin sign lowercases to a plain k
    assert_eq!(normalize_guess("\u{212A}"), "k");
    assert_eq!(normalize_guess("PIK\u{00C1}CHU"), "pik\u{00E1}chu");
}

#[test]
fn resolver_returns_first_match_on_duplicates() {
    let sp = species("dup", vec![entry("en", "x", "A"), entry("en", "x", "B")]);
    let p = sp.resolve("en", "x").expect("entry exists");
    assert_eq!(p.description, "A");
    assert_eq!(p.name, "dup");
}

#[test]
fn resolver_skips_non_matching_entries() {
    let sp = species(
        "pick",
        vec![
            entry("fr", "x", "non"),
            entry("en", "y", "no"),
            entry("en", "x", "yes\nhere"),
        ],
    );
    let p = sp.resolve("en", "x").expect("entry exists");
    assert_eq!(p.description, "yes here");
}

#[test]
fn resolver_fails_with_no_matching_entry() {
    let sp = species("lost", vec![entry("fr", "y", "texte")]);
    let err = sp.resolve("en", "x").expect_err("no entry matches");
    let ResolutionError::NoMatchingEntry { species_name, language_code, version_code } = err;
    assert_eq!(species_name, "lost");
    assert_eq!(language_code, "en");
    assert_eq!(version_code, "x");
}

#[test]
fn to_pokemon_resolves_and_sanitizes() {
    let sp = species("bulbasaur", vec![entry("en", "x", "a strange\nseed")]);
    let p = sp.to_pokemon("en", "x");
    assert_eq!(p.name, "bulbasaur");
    assert_eq!(p.description, "a strange seed");
}

#[test]
fn select_id_from_maps_draws_into_the_range() {
    assert_eq!(select_id_from(1, 0).unwrap(), 1);
    assert_eq!(select_id_from(1, 150).unwrap(), 151);
    // a draw past the width wraps around
    assert_eq!(select_id_from(1, 151).unwrap(), 1);
    assert_eq!(select_id_from(2, 0).unwrap(), 152);
    assert_eq!(select_id_from(4, 0).unwrap(), 387);
    assert_eq!(select_id_from(9, 102).unwrap(), 1008);
}

#[test]
fn select_id_from_rejects_bad_generations() {
    assert!(matches!(
        select_id_from(0, 5),
        Err(ConfigError::InvalidGeneration { generation: 0 })
    ));
    assert!(matches!(
        select_id_from(10, 5),
        Err(ConfigError::InvalidGeneration { generation: 10 })
    ));
}

#[test]
fn select_id_stays_inside_each_generation() {
    for g in 1..=9usize {
        let lo = if g == 1 { 1 } else { GEN_BOUNDARIES[g - 2] + 1 };
        let hi = GEN_BOUNDARIES[g - 1];
        for _ in 0..50 {
            let id = select_id(g).expect("generation is valid");
            assert!(lo <= id && id <= hi, "gen {} drew {}", g, id);
        }
    }
}

#[test]
fn select_id_actually_varies() {
    // 100 draws from 151 candidate ids: a selector that did not consume
    // randomness would return the same id every time.
    let first = select_id(1).unwrap();
    let varied = (0..99).any(|_| select_id(1).unwrap() != first);
    assert!(varied);
}

#[test]
fn select_id_rejects_bad_generations() {
    assert!(matches!(
        select_id(0),
        Err(ConfigError::InvalidGeneration { generation: 0 })
    ));
    assert!(matches!(
        select_id(42),
        Err(ConfigError::InvalidGeneration { generation: 42 })
    ));
}

#[test]
fn default_config_values() {
    let cfg = MyConfig::default();
    assert_eq!(cfg.version, "x");
    assert_eq!(cfg.language, "en");
    assert_eq!(cfg.generation, 4);
    assert_eq!(cfg.rounds, 10);
}

#[test]
fn merge_config_overrides_win() {
    let merged = merge_config(
        MyConfig::default(),
        ConfigOverrides {
            language: Some("fr".to_string()),
            version: None,
            generation: Some(2),
            rounds: None,
        },
    );
    assert_eq!(merged.language, "fr");
    assert_eq!(merged.version, "x");
    assert_eq!(merged.generation, 2);
    assert_eq!(merged.rounds, 10);
}

#[test]
fn merge_config_keeps_base_without_overrides() {
    let base = config("de", "ruby", 3, 7);
    let merged = merge_config(
        base,
        ConfigOverrides { language: None, version: None, generation: None, rounds: None },
    );
    assert_eq!(merged.language, "de");
    assert_eq!(merged.version, "ruby");
    assert_eq!(merged.generation, 3);
    assert_eq!(merged.rounds, 7);
}

#[test]
fn session_rejects_invalid_generation() {
    let err = Session::new(config("en", "x", 0, 3)).expect_err("generation 0 is invalid");
    assert!(matches!(err, ConfigError::InvalidGeneration { generation: 0 }));
}

#[test]
fn guess_comparison_is_case_and_whitespace_insensitive() {
    let mut session = Session::new(config("en", "x", 1, 1)).unwrap();
    assert!(session.begin_round().is_some());
    session
        .supply_species(species("pikachu", vec![entry("en", "x", "a mouse")]))
        .expect("entry exists");
    let result = session.submit_guess(" PIKACHU \n");
    assert!(result.is_correct);
    assert_eq!(result.species_name, "pikachu");
    assert_eq!(result.player_input, " PIKACHU \n");
}

#[test]
fn guess_comparison_accepts_unicode_whitespace() {
    let mut session = Session::new(config("en", "x", 1, 1)).unwrap();
    assert!(session.begin_round().is_some());
    session
        .supply_species(species("pikachu", vec![entry("en", "x", "a mouse")]))
        .expect("entry exists");
    // a no-break space leads the guess: str::trim removes it
    let result = session.submit_guess("\u{00A0}PIKACHU\n");
    assert!(result.is_correct);
}

#[test]
fn session_stops_counting_at_a_fetch_failure() {
    // A stub repository that fails on the third fetch: the two completed
    // rounds keep their score, the failed round is never counted.
    let mut session = Session::new(config("en", "x", 1, 5)).unwrap();
    for round in 0..3 {
        let id = session.begin_round().expect("rounds remain");
        assert!((1..=151).contains(&id));
        let fetched: Result<PokemonSpeciesResponse, &str> = if round < 2 {
            Ok(species("bulbasaur", vec![entry("en", "x", "a seed")]))
        } else {
            Err("network error")
        };
        match fetched {
            Ok(resp) => {
                session.supply_species(resp).expect("entry exists");
                session.submit_guess("bulbasaur");
            }
            Err(_) => {
                session.abort();
                break;
            }
        }
    }
    let report = session.report();
    assert_eq!(report.rounds_played, 2);
    assert_eq!(report.hits, 2);
}

#[test]
fn session_resolution_failure_keeps_counts() {
    let mut session = Session::new(config("en", "x", 1, 2)).unwrap();
    session.begin_round().expect("rounds remain");
    let err = session
        .supply_species(species("lost", vec![entry("fr", "y", "texte")]))
        .expect_err("no entry matches");
    let ResolutionError::NoMatchingEntry { species_name, language_code, version_code } = err;
    assert_eq!(species_name, "lost");
    assert_eq!(language_code, "en");
    assert_eq!(version_code, "x");
    let report = session.report();
    assert_eq!(report.rounds_played, 0);
    assert_eq!(report.hits, 0);
}

#[test]
fn full_session_counts_hits() {
    // Three rounds against a stub repository that always returns the same
    // species; two of the scripted guesses match after normalization.
    let mut session = Session::new(config("en", "x", 1, 3)).unwrap();
    let guesses = ["bulbasaur", "charmander", "BULBASAUR"];
    let mut prompts: Vec<String> = Vec::new();
    for guess in guesses {
        session.begin_round().expect("rounds remain");
        let text = session
            .supply_species(species("bulbasaur", vec![entry("en", "x", "a strange\nseed")]))
            .expect("entry exists");
        prompts.push(text);
        session.submit_guess(guess);
    }
    assert!(session.begin_round().is_none());
    let report = session.report();
    assert_eq!(report.rounds_played, 3);
    assert_eq!(report.hits, 2);
    assert!(prompts.iter().all(|p| p == "a strange seed"));
}
