//! Verified core of a terminal trivia game: a player is shown a species'
//! localized flavor text and guesses its name over a number of rounds.
//!
//! The modules cover text normalization, flavor-text resolution, random
//! round selection bounded by generation id ranges, configuration merging,
//! and the session state machine that keeps score.

mod config;
mod selector;
mod session;
mod species;
mod text;

pub use config::ConfigOverrides;
pub use config::MyConfig;
pub use config::merge_config;
pub use selector::ConfigError;
pub use selector::select_id;
pub use selector::select_id_from;
pub use species::FlavorTextEntries;
pub use species::Language;
pub use species::Pokemon;
pub use species::PokemonSpeciesResponse;
pub use species::ResolutionError;
pub use species::Version;
pub use session::GuessResult;
pub use session::Phase;
pub use session::Session;
pub use session::SessionReport;
pub use text::normalize_guess;
pub use text::sanitize_text;
