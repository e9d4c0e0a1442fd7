//! A verified core for a rock-paper-scissors game: the move model with its
//! cyclic dominance relation, case-insensitive move parsing, and the outcome
//! rule, together with a seeded or entropy-backed opponent draw.

use vstd::prelude::*;

pub mod opponent;
pub mod outcome;
pub mod parse;

use crate::opponent::{index_move, random_move, seeded_draw};
use crate::outcome::{calculate_winner, winner_of, GameResult, Move};
use crate::parse::{parse_move, spec_parse_move, MoveError};

verus! {

/// One full round: parse the user's move from `input`, draw the opponent's
/// move (deterministic when `seed` is given), and compute the verdict. Fails
/// exactly when `input` names no move.
pub fn play_round(input: &str, seed: Option<u64>) -> (r: Result<(Move, GameResult), MoveError>)
    ensures
        r is Err <==> spec_parse_move(input@) is Err,
        r matches Err(e) ==> e == MoveError::InvalidMove,
        r matches Ok(p) ==> spec_parse_move(input@) matches Ok(um) && p.1 == winner_of(um, p.0),
        seed matches Some(s) ==> (r is Ok ==> r->Ok_0.0 == index_move(seeded_draw(s) as int)),
{
    let user = match parse_move(input) {
        Ok(m) => m,
        Err(e) => {
            return Err(e);
        },
    };
    let opponent = random_move(seed);
    let result = calculate_winner(user, opponent);
    Ok((opponent, result))
}

} // verus!
