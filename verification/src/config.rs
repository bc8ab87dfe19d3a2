//! Session configuration: built-in defaults and the layered merge that
//! applies per-invocation overrides on top of a base configuration.

use vstd::prelude::*;

verus! {

/// A fully resolved configuration: which game version's text to use, in
/// which language, which generation to draw from, and how many rounds to
/// play.
#[derive(Debug)]
pub struct MyConfig {
    pub version: String,
    pub language: String,
    pub generation: usize,
    pub rounds: u32,
}

impl Default for MyConfig {
    /// The built-in defaults: version "x", language "en", generation 4,
    /// 10 rounds.
    fn default() -> (c: Self)
        ensures
            c.version@ == "x"@,
            c.language@ == "en"@,
            c.generation == 4,
            c.rounds == 10,
    {
        MyConfig {
            version: String::from_str("x"),
            language: String::from_str("en"),
            generation: 4,
            rounds: 10,
        }
    }
}

/// Per-invocation overrides: each field, when present, replaces the
/// corresponding field of the base configuration.
pub struct ConfigOverrides {
    pub language: Option<String>,
    pub version: Option<String>,
    pub generation: Option<usize>,
    pub rounds: Option<u32>,
}

/// Applies overrides on top of a base configuration: a present override
/// wins, an absent one leaves the base value in place.
pub fn merge_config(base: MyConfig, overrides: ConfigOverrides) -> (r: MyConfig)
    ensures
        overrides.language matches Some(v) ==> r.language == v,
        overrides.language is None ==> r.language == base.language,
        overrides.version matches Some(v) ==> r.version == v,
        overrides.version is None ==> r.version == base.version,
        overrides.generation matches Some(v) ==> r.generation == v,
        overrides.generation is None ==> r.generation == base.generation,
        overrides.rounds matches Some(v) ==> r.rounds == v,
        overrides.rounds is None ==> r.rounds == base.rounds,
{
    let language = match overrides.language {
        Some(v) => v,
        None => base.language,
    };
    let version = match overrides.version {
        Some(v) => v,
        None => base.version,
    };
    let generation = match overrides.generation {
        Some(v) => v,
        None => base.generation,
    };
    let rounds = match overrides.rounds {
        Some(v) => v,
        None => base.rounds,
    };
    MyConfig { version, language, generation, rounds }
}

} // verus!
