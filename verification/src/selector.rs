//! Generation-bounded random species selection.
//!
//! The national id space is split into generations by a table of cumulative
//! upper boundaries. Generation `g` owns the ids strictly above the
//! boundary of `g - 1` up to and including its own boundary; both ends of
//! that range are selectable.

use rand::Rng;
use vstd::prelude::*;

verus! {

/// Configuration failure: the requested generation is outside 1..=9.
#[derive(Debug)]
pub enum ConfigError {
    InvalidGeneration { generation: usize },
}

/// The highest national id belonging to generation `g`; 0 below the first
/// generation, and the table's last value above the ninth.
pub open spec fn gen_boundary(g: int) -> int {
    if g <= 0 {
        0
    } else if g == 1 {
        151
    } else if g == 2 {
        251
    } else if g == 3 {
        386
    } else if g == 4 {
        493
    } else if g == 5 {
        649
    } else if g == 6 {
        721
    } else if g == 7 {
        809
    } else if g == 8 {
        905
    } else {
        1008
    }
}

/// The lowest id of generation `g`: one above the previous generation's
/// boundary.
pub open spec fn gen_lo(g: int) -> int {
    gen_boundary(g - 1) + 1
}

/// The highest id of generation `g`.
pub open spec fn gen_hi(g: int) -> int {
    gen_boundary(g)
}

/// The boundary of generation `g`, as a machine integer.
pub fn generation_upper(g: usize) -> (u: u16)
    requires
        1 <= g <= 9,
    ensures
        u == gen_boundary(g as int),
{
    if g == 1 {
        151
    } else if g == 2 {
        251
    } else if g == 3 {
        386
    } else if g == 4 {
        493
    } else if g == 5 {
        649
    } else if g == 6 {
        721
    } else if g == 7 {
        809
    } else if g == 8 {
        905
    } else {
        1008
    }
}

/// Relies on rand::Rng::gen_range over `0..n` on rand::thread_rng: returns
/// a value of that range; the range is nonempty by the precondition, so the
/// call does not panic.
#[verifier::external_body]
pub(crate) fn random_below(n: u64) -> (r: u64)
    requires
        n > 0,
    ensures
        r < n,
{
    rand::thread_rng().gen_range(0..n)
}

/// Deterministic core of id selection: maps an injected draw into
/// generation `g`'s id range by reducing it modulo the range's width.
/// Rejects a generation outside 1..=9 with `ConfigError`.
pub fn select_id_from(generation: usize, draw: u64) -> (r: Result<u16, ConfigError>)
    ensures
        r matches Ok(id) ==> 1 <= generation <= 9 && id == gen_lo(generation as int) + draw % ((
        gen_hi(generation as int) - gen_lo(generation as int) + 1) as u64),
        r is Ok <==> 1 <= generation <= 9,
        r matches Err(e) ==> e matches ConfigError::InvalidGeneration { generation: g } && g
            == generation,
{
    if generation < 1 || generation > 9 {
        return Err(ConfigError::InvalidGeneration { generation });
    }
    let hi: u16 = generation_upper(generation);
    let lo: u16 = if generation == 1 {
        1
    } else {
        generation_upper(generation - 1) + 1
    };
    let width: u64 = (hi - lo) as u64 + 1;
    let offset: u64 = draw % width;
    Ok(lo + (offset as u16))
}

/// Draws a uniformly distributed id inside generation `g`'s range, or
/// rejects a generation outside 1..=9 with `ConfigError`.
pub fn select_id(generation: usize) -> (r: Result<u16, ConfigError>)
    ensures
        r matches Ok(id) ==> 1 <= generation <= 9 && gen_lo(generation as int) <= id <= gen_hi(
            generation as int,
        ),
        r is Ok <==> 1 <= generation <= 9,
        r matches Err(e) ==> e matches ConfigError::InvalidGeneration { generation: g } && g
            == generation,
{
    if generation < 1 || generation > 9 {
        return Err(ConfigError::InvalidGeneration { generation });
    }
    let hi: u16 = generation_upper(generation);
    let lo: u16 = if generation == 1 {
        1
    } else {
        generation_upper(generation - 1) + 1
    };
    let width: u64 = (hi - lo) as u64 + 1;
    let draw: u64 = random_below(width);
    select_id_from(generation, draw)
}

/// Every id selectable for generation `g` lies strictly inside `g`'s
/// boundary range: strictly above the previous generation's boundary and at
/// most `g`'s own.
pub proof fn lemma_selected_id_in_generation(g: int, id: int)
    requires
        1 <= g <= 9,
        gen_lo(g) <= id <= gen_hi(g),
    ensures
        gen_boundary(g - 1) < id <= gen_boundary(g),
{
}

/// The id ranges of two different generations never overlap: one range
/// ends strictly before the other begins, so no id lies in both.
pub proof fn lemma_generation_ranges_disjoint(g1: int, g2: int)
    requires
        1 <= g1 <= 9,
        1 <= g2 <= 9,
        g1 != g2,
    ensures
        gen_hi(g1) < gen_lo(g2) || gen_hi(g2) < gen_lo(g1),
{
}

} // verus!
