//! Species data model and the flavor-text resolver: picking the one entry
//! that matches a requested language and game version, and normalizing it
//! into displayable text.

use vstd::prelude::*;

use crate::text::sanitize_spec;
use crate::text::sanitize_text;

verus! {

/// A language tag of one flavor-text entry, e.g. "en".
pub struct Language {
    pub name: String,
}

/// A game-version tag of one flavor-text entry, e.g. "x".
pub struct Version {
    pub name: String,
}

/// One localized flavor text of a species, tagged with its language and the
/// game version it appears in.
pub struct FlavorTextEntries {
    pub flavor_text: String,
    pub language: Language,
    pub version: Version,
}

/// Raw species data as the repository hands it over: the species name and
/// every localized flavor text, in the repository's order.
pub struct PokemonSpeciesResponse {
    pub name: String,
    pub flavor_text_entries: Vec<FlavorTextEntries>,
}

/// A species ready for one round: its name and the sanitized flavor text
/// shown to the player.
#[derive(Debug)]
pub struct Pokemon {
    pub name: String,
    pub description: String,
}

/// Resolution failure: the species has no flavor text for the requested
/// language and version. Carries enough context to explain the gap.
#[derive(Debug)]
pub enum ResolutionError {
    NoMatchingEntry { species_name: String, language_code: String, version_code: String },
}

/// Whether one entry carries text for the requested language and version.
pub open spec fn entry_matches(e: FlavorTextEntries, lang: Seq<char>, ver: Seq<char>) -> bool {
    e.language.name@ == lang && e.version.name@ == ver
}

/// Whether any entry of the sequence matches the requested language and
/// version.
pub open spec fn has_matching_entry(
    entries: Seq<FlavorTextEntries>,
    lang: Seq<char>,
    ver: Seq<char>,
) -> bool {
    exists|i: int| 0 <= i < entries.len() && entry_matches(#[trigger] entries[i], lang, ver)
}

/// Whether `i` is the index of the first matching entry: it matches and no
/// earlier entry does. Duplicates may exist; the first in sequence order
/// wins.
pub open spec fn is_first_match(
    entries: Seq<FlavorTextEntries>,
    lang: Seq<char>,
    ver: Seq<char>,
    i: int,
) -> bool {
    &&& 0 <= i < entries.len()
    &&& entry_matches(entries[i], lang, ver)
    &&& forall|j: int| 0 <= j < i ==> !entry_matches(#[trigger] entries[j], lang, ver)
}

impl PokemonSpeciesResponse {
    /// Selects the first flavor-text entry matching the requested language
    /// and version and sanitizes its text; fails with `NoMatchingEntry`
    /// exactly when no entry matches.
    pub fn resolve(self, lang: &str, ver: &str) -> (r: Result<Pokemon, ResolutionError>)
        ensures
            r is Ok <==> has_matching_entry(self.flavor_text_entries@, lang@, ver@),
            r matches Ok(p) ==> p.name@ == self.name@ && exists|i: int|
                is_first_match(self.flavor_text_entries@, lang@, ver@, i) && p.description@
                    == sanitize_spec(self.flavor_text_entries@[i].flavor_text@),
            r matches Err(e) ==> e matches ResolutionError::NoMatchingEntry {
                species_name,
                language_code,
                version_code,
            } && species_name@ == self.name@ && language_code@ == lang@ && version_code@ == ver@,
    {
        let lang_s: String = String::from_str(lang);
        let ver_s: String = String::from_str(ver);
        let n: usize = self.flavor_text_entries.len();
        let mut i: usize = 0;
        while i < n
            invariant
                i <= n,
                n == self.flavor_text_entries@.len(),
                lang_s@ == lang@,
                ver_s@ == ver@,
                forall|j: int| 0 <= j < i ==> !entry_matches(
                    #[trigger] self.flavor_text_entries@[j],
                    lang@,
                    ver@,
                ),
            decreases n - i,
        {
            let entry = &self.flavor_text_entries[i];
            if entry.language.name == lang_s && entry.version.name == ver_s {
                let description = sanitize_text(entry.flavor_text.as_str());
                proof {
                    assert(is_first_match(self.flavor_text_entries@, lang@, ver@, i as int)
                        && description@ == sanitize_spec(
                        self.flavor_text_entries@[i as int].flavor_text@,
                    ));
                }
                return Ok(Pokemon { name: self.name, description });
            }
            i = i + 1;
        }
        Err(
            ResolutionError::NoMatchingEntry {
                species_name: self.name,
                language_code: lang_s,
                version_code: ver_s,
            },
        )
    }

    /// Like `resolve`, for callers that already know a matching entry
    /// exists; never fails on such input.
    pub fn to_pokemon(self, lang: &str, gen: &str) -> (p: Pokemon)
        requires
            has_matching_entry(self.flavor_text_entries@, lang@, gen@),
        ensures
            p.name@ == self.name@,
            exists|i: int|
                is_first_match(self.flavor_text_entries@, lang@, gen@, i) && p.description@
                    == sanitize_spec(self.flavor_text_entries@[i].flavor_text@),
    {
        match self.resolve(lang, gen) {
            Ok(p) => p,
            Err(_) => unreached(),
        }
    }
}

} // verus!
