//! Move parsing: exactly the words "rock", "paper" and "scissors", in any
//! ASCII letter casing, name a move; every other text is rejected.

use vstd::prelude::*;
use crate::outcome::Move;

verus! {

/// The one way parsing can fail: the text names no move.
#[derive(Debug, Clone, Copy, PartialEq, Eq, Structural)]
pub enum MoveError {
    InvalidMove,
}

/// ASCII lowercasing of one character; anything outside 'A'..='Z' is kept.
pub open spec fn lower_char(c: char) -> char {
    if 65 <= c as int && c as int <= 90 {
        ((c as int) + 32) as char
    } else {
        c
    }
}

/// ASCII lowercasing of a character sequence.
pub open spec fn lower_seq(s: Seq<char>) -> Seq<char> {
    s.map_values(|c: char| lower_char(c))
}

/// What parsing returns: the move whose lowercase name the text matches, or
/// an error when it matches none.
pub open spec fn spec_parse_move(s: Seq<char>) -> Result<Move, MoveError> {
    if lower_seq(s) == "rock"@ {
        Ok(Move::Rock)
    } else if lower_seq(s) == "paper"@ {
        Ok(Move::Paper)
    } else if lower_seq(s) == "scissors"@ {
        Ok(Move::Scissors)
    } else {
        Err(MoveError::InvalidMove)
    }
}

/// Parsing ignores ASCII letter casing: two texts with the same lowercased
/// form parse to the same result.
pub proof fn lemma_parse_ignores_case(s: Seq<char>, t: Seq<char>)
    requires
        lower_seq(s) == lower_seq(t),
    ensures
        spec_parse_move(s) == spec_parse_move(t),
{
}

/// Lowercasing is idempotent, so a text parses exactly as its lowercased
/// form does.
pub proof fn lemma_parse_of_lowered(s: Seq<char>)
    ensures
        spec_parse_move(lower_seq(s)) == spec_parse_move(s),
{
    assert(lower_seq(lower_seq(s)) =~= lower_seq(s));
    lemma_parse_ignores_case(lower_seq(s), s);
}

/// ASCII lowercasing of one character, exactly as `lower_char` states it.
fn lower_char_exec(c: char) -> (r: char)
    ensures
        r == lower_char(c),
{
    let code: u32 = c as u32;
    if 65 <= code && code <= 90 {
        ((code + 32) as u8) as char
    } else {
        c
    }
}

/// Whether `s`, lowercased, equals `t` as it stands.
fn matches_lowered(s: &str, t: &str) -> (r: bool)
    ensures
        r <==> lower_seq(s@) == t@,
{
    let sn = s.unicode_len();
    let tn = t.unicode_len();
    if sn != tn {
        return false;
    }
    for i in 0..sn
        invariant
            sn == s@.len(),
            sn == t@.len(),
            forall|j: int| 0 <= j < i ==> lower_char(s@[j]) == t@[j],
    {
        let c = lower_char_exec(s.get_char(i));
        let d = t.get_char(i);
        if c != d {
            proof {
                assert(lower_seq(s@)[i as int] != t@[i as int]);
            }
            return false;
        }
    }
    proof {
        assert(lower_seq(s@) =~= t@);
    }
    true
}

/// Parses a move from text, exactly as `spec_parse_move` states it: the
/// words "rock", "paper" and "scissors" in any ASCII casing succeed, and
/// every other text fails with `MoveError::InvalidMove`.
pub fn parse_move(s: &str) -> (r: Result<Move, MoveError>)
    ensures
        r == spec_parse_move(s@),
{
    if matches_lowered(s, "rock") {
        Ok(Move::Rock)
    } else if matches_lowered(s, "paper") {
        Ok(Move::Paper)
    } else if matches_lowered(s, "scissors") {
        Ok(Move::Scissors)
    } else {
        Err(MoveError::InvalidMove)
    }
}

impl core::str::FromStr for Move {
    type Err = MoveError;

    fn from_str(s: &str) -> Result<Move, MoveError> {
        parse_move(s)
    }
}

} // verus!
