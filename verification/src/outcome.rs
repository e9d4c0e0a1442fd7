//! The outcome rule: which move beats which, and the verdict of one round.

use vstd::prelude::*;

verus! {

/// A player's choice in one round.
#[derive(Debug, Clone, Copy, PartialEq, Eq, Structural)]
pub enum Move {
    Rock,
    Paper,
    Scissors,
}

/// The verdict of one round, seen from the user's side.
#[derive(Debug, Clone, Copy, PartialEq, Eq, Structural)]
pub enum GameResult {
    UserWin,
    OpponentWin,
    Tie,
}

/// The cyclic dominance relation: Rock beats Scissors, Scissors beats Paper,
/// Paper beats Rock.
pub open spec fn beats(a: Move, b: Move) -> bool {
    ||| (a == Move::Rock && b == Move::Scissors)
    ||| (a == Move::Scissors && b == Move::Paper)
    ||| (a == Move::Paper && b == Move::Rock)
}

/// The verdict for a pair of moves: the user wins when their move dominates,
/// equal moves tie, and the opponent wins otherwise.
pub open spec fn winner_of(user: Move, opponent: Move) -> GameResult {
    if beats(user, opponent) {
        GameResult::UserWin
    } else if user == opponent {
        GameResult::Tie
    } else {
        GameResult::OpponentWin
    }
}

/// The verdict of a round, exactly as `winner_of` states it.
pub fn calculate_winner(user: Move, opponent: Move) -> (r: GameResult)
    ensures
        r == winner_of(user, opponent),
        r == GameResult::UserWin <==> beats(user, opponent),
        r == GameResult::Tie <==> user == opponent,
        r == GameResult::OpponentWin <==> beats(opponent, user),
{
    if user > opponent {
        GameResult::UserWin
    } else if user == opponent {
        GameResult::Tie
    } else {
        GameResult::OpponentWin
    }
}

/// For every pair of moves the verdict is exactly one of the three results,
/// and swapping the players swaps win and loss while ties stay ties.
pub proof fn lemma_outcome_total_and_inverse(a: Move, b: Move)
    ensures
        winner_of(a, b) == GameResult::UserWin || winner_of(a, b) == GameResult::Tie
            || winner_of(a, b) == GameResult::OpponentWin,
        winner_of(a, b) == GameResult::UserWin <==> winner_of(b, a) == GameResult::OpponentWin,
        winner_of(a, b) == GameResult::Tie <==> winner_of(b, a) == GameResult::Tie,
        winner_of(a, b) == GameResult::OpponentWin <==> winner_of(b, a) == GameResult::UserWin,
{
}

/// For every pair of moves, exactly one of "a beats b", "a equals b" and
/// "b beats a" holds.
pub proof fn lemma_dominance_trichotomy(a: Move, b: Move)
    ensures
        beats(a, b) || a == b || beats(b, a),
        !(beats(a, b) && a == b),
        !(beats(a, b) && beats(b, a)),
        !(a == b && beats(b, a)),
{
}

/// A move against itself always ties.
pub proof fn lemma_outcome_reflexive(a: Move)
    ensures
        winner_of(a, a) == GameResult::Tie,
{
}

/// The dominance relation is the three-step cycle: Rock beats Scissors,
/// Scissors beats Paper, Paper beats Rock, and nothing else wins.
pub proof fn lemma_cyclic_dominance()
    ensures
        winner_of(Move::Rock, Move::Scissors) == GameResult::UserWin,
        winner_of(Move::Scissors, Move::Paper) == GameResult::UserWin,
        winner_of(Move::Paper, Move::Rock) == GameResult::UserWin,
        forall|a: Move, b: Move| #[trigger] beats(a, b) <==> a == cycle_winner_over(b),
{
}

/// The one move that beats a given move.
pub open spec fn cycle_winner_over(b: Move) -> Move {
    match b {
        Move::Scissors => Move::Rock,
        Move::Paper => Move::Scissors,
        Move::Rock => Move::Paper,
    }
}

impl Move {
    /// The move's display name.
    pub open spec fn spec_label(self) -> Seq<char> {
        match self {
            Move::Rock => "Rock"@,
            Move::Paper => "Paper"@,
            Move::Scissors => "Scissors"@,
        }
    }

    /// The move's display name, exactly as `spec_label` states it.
    pub fn label(&self) -> (r: &'static str)
        ensures
            r@ == self.spec_label(),
    {
        match self {
            Move::Rock => "Rock",
            Move::Paper => "Paper",
            Move::Scissors => "Scissors",
        }
    }
}

impl GameResult {
    /// The verdict's display phrase.
    pub open spec fn spec_phrase(self) -> Seq<char> {
        match self {
            GameResult::UserWin => "You win!"@,
            GameResult::Tie => "Tie"@,
            GameResult::OpponentWin => "You lose!"@,
        }
    }

    /// The verdict's display phrase, exactly as `spec_phrase` states it.
    pub fn phrase(&self) -> (r: &'static str)
        ensures
            r@ == self.spec_phrase(),
    {
        match self {
            GameResult::UserWin => "You win!",
            GameResult::Tie => "Tie",
            GameResult::OpponentWin => "You lose!",
        }
    }
}

impl PartialOrd for Move {
    /// The dominance relation as a partial order on moves: `Greater` when
    /// `self` beats `other`, `Equal` on equal moves, `Less` otherwise.
    fn partial_cmp(&self, other: &Self) -> (r: Option<core::cmp::Ordering>) {
        match (self, other) {
            (Move::Rock, Move::Rock) => Some(core::cmp::Ordering::Equal),
            (Move::Rock, Move::Paper) => Some(core::cmp::Ordering::Less),
            (Move::Rock, Move::Scissors) => Some(core::cmp::Ordering::Greater),
            (Move::Paper, Move::Rock) => Some(core::cmp::Ordering::Greater),
            (Move::Paper, Move::Paper) => Some(core::cmp::Ordering::Equal),
            (Move::Paper, Move::Scissors) => Some(core::cmp::Ordering::Less),
            (Move::Scissors, Move::Rock) => Some(core::cmp::Ordering::Less),
            (Move::Scissors, Move::Paper) => Some(core::cmp::Ordering::Greater),
            (Move::Scissors, Move::Scissors) => Some(core::cmp::Ordering::Equal),
        }
    }
}

impl vstd::std_specs::cmp::PartialOrdSpecImpl for Move {
    open spec fn obeys_partial_cmp_spec() -> bool {
        true
    }

    open spec fn partial_cmp_spec(&self, other: &Self) -> Option<core::cmp::Ordering> {
        if beats(*self, *other) {
            Some(core::cmp::Ordering::Greater)
        } else if *self == *other {
            Some(core::cmp::Ordering::Equal)
        } else {
            Some(core::cmp::Ordering::Less)
        }
    }
}

} // verus!
