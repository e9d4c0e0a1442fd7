//! The opponent's move: a uniform draw over the three moves, either from a
//! deterministic generator initialized with a caller-supplied seed, or from
//! the system's entropy source.

use vstd::prelude::*;
use rand::{Rng, SeedableRng};
use crate::outcome::Move;

verus! {

/// The first value in `{0, 1, 2}` that a standard generator seeded with
/// `seed` produces. The generator algorithm is fixed by the linked
/// randomness crate, so this is a function of the seed alone.
pub uninterp spec fn seeded_draw(seed: u64) -> u8;

/// Relies on `rand::rngs::StdRng::seed_from_u64` and `rand::Rng::gen_range`:
/// seeding is a pure function of the `u64` seed, and one `gen_range(0..=2)`
/// draw from the freshly seeded generator is therefore a function of the seed
/// alone, always within `0..=2`.
#[verifier::external_body]
fn draw_seeded(seed: u64) -> (r: u8)
    ensures
        r == seeded_draw(seed),
        r <= 2,
{
    let mut rng = rand::rngs::StdRng::seed_from_u64(seed);
    let v: i32 = rng.gen_range(0..=2);
    v as u8
}

/// Relies on `rand::rngs::StdRng::from_entropy` and `rand::Rng::gen_range`:
/// the draw comes from the system entropy source, so nothing is known of it
/// beyond its range `0..=2`.
#[verifier::external_body]
fn draw_entropy() -> (r: u8)
    ensures
        r <= 2,
{
    let mut rng = rand::rngs::StdRng::from_entropy();
    let v: i32 = rng.gen_range(0..=2);
    v as u8
}

/// The fixed, stable mapping from a uniform draw over `{0, 1, 2}` to a move.
pub open spec fn index_move(i: int) -> Move {
    if i == 0 {
        Move::Rock
    } else if i == 1 {
        Move::Paper
    } else {
        Move::Scissors
    }
}

/// Turns a draw in `0..=2` into a move, exactly as `index_move` states it.
pub fn move_of_index(i: u8) -> (m: Move)
    requires
        i <= 2,
    ensures
        m == index_move(i as int),
{
    match i {
        0 => Move::Rock,
        1 => Move::Paper,
        _ => Move::Scissors,
    }
}

/// The opponent's move for a seeded run: a function of the seed alone, so the
/// same seed always yields the same move.
pub fn random_move_seeded(seed: u64) -> (m: Move)
    ensures
        m == index_move(seeded_draw(seed) as int),
{
    let i = draw_seeded(seed);
    move_of_index(i)
}

/// The opponent's move for an unseeded run, drawn from the entropy source.
pub fn random_move_entropy() -> (m: Move) {
    let i = draw_entropy();
    move_of_index(i)
}

/// The opponent's move: deterministic when a seed is supplied, drawn from
/// entropy otherwise.
pub fn random_move(seed: Option<u64>) -> (m: Move)
    ensures
        seed matches Some(s) ==> m == index_move(seeded_draw(s) as int),
{
    match seed {
        Some(s) => random_move_seeded(s),
        None => random_move_entropy(),
    }
}

} // verus!
