//! The session engine: a state machine over the phases of a round.
//!
//! A session plays a fixed number of rounds. Each round goes through
//! drawing an id, fetching the species (done outside, by whoever runs the
//! engine), resolving and showing its flavor text, and scoring the player's
//! guess. Fetching and player I/O happen outside; the engine only decides,
//! so every decision is verified. A round that fails before scoring never
//! touches the recorded counts.

use vstd::prelude::*;

use crate::config::MyConfig;
use crate::selector::ConfigError;
use crate::selector::gen_hi;
use crate::selector::gen_lo;
use crate::selector::select_id;
use crate::species::PokemonSpeciesResponse;
use crate::species::Pokemon;
use crate::species::ResolutionError;
use crate::species::has_matching_entry;
use crate::species::is_first_match;
use crate::text::normalize_guess;
use crate::text::normalize_guess_spec;
use crate::text::sanitize_spec;

verus! {

/// Where the engine stands: before a round, waiting for species data,
/// waiting for the player's guess, or done.
#[derive(Debug)]
pub enum Phase {
    Drawing,
    Fetching,
    Guessing,
    Finished,
}

/// The outcome of one scored round.
pub struct GuessResult {
    pub species_name: String,
    pub player_input: String,
    pub is_correct: bool,
}

/// The final tally of a session: how many rounds were completed and how
/// many guesses were correct.
pub struct SessionReport {
    pub rounds_played: u32,
    pub hits: u32,
}

/// A running session: the configuration it was started with, the score so
/// far, and the phase of the current round.
#[derive(Debug)]
pub struct Session {
    pub config: MyConfig,
    pub rounds_played: u32,
    pub hits: u32,
    pub phase: Phase,
    pub current: Option<Pokemon>,
}

impl Session {
    /// The session invariant: the score never exceeds the rounds completed,
    /// which never exceed the rounds configured; a round in flight always
    /// has room left; and a species is held exactly while a guess is
    /// awaited.
    pub open spec fn wf(self) -> bool {
        &&& self.hits <= self.rounds_played <= self.config.rounds
        &&& 1 <= self.config.generation <= 9
        &&& (self.phase is Guessing ==> self.current is Some)
        &&& (self.phase is Drawing || self.phase is Fetching ==> self.current is None)
        &&& (self.phase is Fetching || self.phase is Guessing ==> self.rounds_played
            < self.config.rounds)
    }

    /// Starts a session with no rounds played; rejects a configuration
    /// whose generation is outside 1..=9 with `ConfigError`.
    pub fn new(config: MyConfig) -> (r: Result<Session, ConfigError>)
        ensures
            r is Ok <==> 1 <= config.generation <= 9,
            r matches Ok(s) ==> s.wf() && s.config == config && s.rounds_played == 0 && s.hits == 0
                && s.phase is Drawing,
            r matches Err(e) ==> e matches ConfigError::InvalidGeneration { generation } && generation
                == config.generation,
    {
        if config.generation < 1 || config.generation > 9 {
            return Err(ConfigError::InvalidGeneration { generation: config.generation });
        }
        Ok(
            Session {
                config,
                rounds_played: 0,
                hits: 0,
                phase: Phase::Drawing,
                current: None,
            },
        )
    }

    /// Opens the next round: draws a random id inside the configured
    /// generation's range, or finishes the session when every round has
    /// been played. The recorded counts do not change.
    pub fn begin_round(&mut self) -> (r: Option<u16>)
        requires
            old(self).wf(),
            old(self).phase is Drawing,
        ensures
            final(self).wf(),
            final(self).config == old(self).config,
            final(self).rounds_played == old(self).rounds_played,
            final(self).hits == old(self).hits,
            r is Some <==> old(self).rounds_played < old(self).config.rounds,
            r matches Some(id) ==> final(self).phase is Fetching && gen_lo(
                old(self).config.generation as int,
            ) <= id <= gen_hi(old(self).config.generation as int),
            r is None ==> final(self).phase is Finished,
    {
        if self.rounds_played == self.config.rounds {
            self.phase = Phase::Finished;
            return None;
        }
        match select_id(self.config.generation) {
            Ok(id) => {
                self.phase = Phase::Fetching;
                Some(id)
            },
            Err(_) => unreached(),
        }
    }

    /// Takes the fetched species data for the open round and resolves its
    /// flavor text against the session's language and version. On success
    /// the sanitized text to show the player is returned and the engine
    /// awaits a guess; on a resolution failure the session finishes with
    /// its counts untouched.
    pub fn supply_species(&mut self, resp: PokemonSpeciesResponse) -> (r: Result<
        String,
        ResolutionError,
    >)
        requires
            old(self).wf(),
            old(self).phase is Fetching,
        ensures
            final(self).wf(),
            final(self).config == old(self).config,
            final(self).rounds_played == old(self).rounds_played,
            final(self).hits == old(self).hits,
            r is Ok <==> has_matching_entry(
                resp.flavor_text_entries@,
                old(self).config.language@,
                old(self).config.version@,
            ),
            r matches Ok(text) ==> (final(self).current matches Some(p)
                && final(self).phase is Guessing && p.name@ == resp.name@ && text@ == p.description@ && exists|i: int|
                is_first_match(
                    resp.flavor_text_entries@,
                    old(self).config.language@,
                    old(self).config.version@,
                    i,
                ) && text@ == sanitize_spec(resp.flavor_text_entries@[i].flavor_text@)),
            r matches Err(e) ==> (e matches ResolutionError::NoMatchingEntry {
                species_name,
                language_code,
                version_code,
            } && species_name@ == resp.name@ && language_code@ == old(self).config.language@
                && version_code@ == old(self).config.version@ && final(self).phase is Finished),
    {
        match resp.resolve(self.config.language.as_str(), self.config.version.as_str()) {
            Ok(p) => {
                let text = p.description.clone();
                self.current = Some(p);
                self.phase = Phase::Guessing;
                Ok(text)
            },
            Err(e) => {
                self.phase = Phase::Finished;
                Err(e)
            },
        }
    }

    /// Scores the player's guess for the open round: the guess matches when
    /// its normalized form equals the species name. A hit raises the score
    /// by one; either way one more round is complete and the engine is
    /// ready for the next.
    pub fn submit_guess(&mut self, input: &str) -> (r: GuessResult)
        requires
            old(self).wf(),
            old(self).phase is Guessing,
        ensures
            final(self).wf(),
            final(self).config == old(self).config,
            old(self).current matches Some(p) ==> r.species_name == p.name && r.is_correct == (
            normalize_guess_spec(input@) == p.name@),
            r.player_input@ == input@,
            final(self).rounds_played == old(self).rounds_played + 1,
            final(self).hits == old(self).hits + (if r.is_correct {
                1int
            } else {
                0int
            }),
            final(self).phase is Drawing,
    {
        let normalized = normalize_guess(input);
        let name: String = match &self.current {
            Some(p) => p.name.clone(),
            None => unreached(),
        };
        let correct: bool = normalized == name;
        if correct {
            self.hits = self.hits + 1;
        }
        self.rounds_played = self.rounds_played + 1;
        self.current = None;
        self.phase = Phase::Drawing;
        GuessResult {
            species_name: name,
            player_input: String::from_str(input),
            is_correct: correct,
        }
    }

    /// Cancels the session mid-round, e.g. when fetching the species
    /// failed. The recorded counts are untouched: a partial round is never
    /// scored.
    pub fn abort(&mut self)
        requires
            old(self).wf(),
        ensures
            final(self).wf(),
            final(self).config == old(self).config,
            final(self).rounds_played == old(self).rounds_played,
            final(self).hits == old(self).hits,
            final(self).phase is Finished,
    {
        self.phase = Phase::Finished;
    }

    /// The tally so far: rounds completed and correct guesses.
    pub fn report(&self) -> (r: SessionReport)
        ensures
            r.rounds_played == self.rounds_played,
            r.hits == self.hits,
    {
        SessionReport { rounds_played: self.rounds_played, hits: self.hits }
    }
}

} // verus!
