//! The status of a game and the reasons for which a request is refused.

use vstd::prelude::*;
use crate::piece::Color;

verus! {

/// Where a game stands for the side that is to move.
#[derive(Clone, Copy, Debug, PartialEq, Eq, Hash, Structural)]
pub enum GameStatus {
    /// The side to move is not in check and has a legal move.
    Ongoing,
    /// The given side is to move, is in check and has a legal move.
    Check(Color),
    /// The given side is to move, is in check and has no legal move.
    Checkmate(Color),
    /// The side to move is not in check and has no legal move.
    Stalemate,
    /// The game was drawn.  No rule of this crate declares a draw, so no
    /// game reaches this status; it is kept for callers that agree on one.
    Draw,
}

impl GameStatus {
    /// Whether the game is over: checkmate, stalemate or draw.
    pub open spec fn spec_is_terminal(self) -> bool {
        self is Checkmate || self is Stalemate || self is Draw
    }

    /// Whether the game is over: checkmate, stalemate or draw.
    #[verifier::when_used_as_spec(spec_is_terminal)]
    pub fn is_terminal(self) -> (over: bool)
        ensures
            over == self.spec_is_terminal(),
    {
        match self {
            GameStatus::Checkmate(_) | GameStatus::Stalemate | GameStatus::Draw => true,
            GameStatus::Ongoing | GameStatus::Check(_) => false,
        }
    }
}

/// Why a request was refused.  A refused request changes nothing.
#[derive(Clone, Copy, Debug, PartialEq, Eq, Hash, Structural)]
pub enum MoveError {
    /// A square lies outside the board.
    InvalidSquare,
    /// The origin is empty or holds a piece of the side that is not to move.
    NoPieceOrWrongSide,
    /// The destination is not a legal move of the piece on the origin.
    IllegalDestination,
    /// The game is already over.
    GameAlreadyTerminal,
}

} // verus!
