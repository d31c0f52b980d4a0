//! Castling rights and the squares on which kings and rooks start.

use vstd::prelude::*;
use crate::piece::Color;
use crate::square::Square;

verus! {

/// For each player and each side of the board, whether castling there is
/// still available.  A right that is lost is never regained.
#[derive(Clone, Copy, Debug, PartialEq, Eq, Hash, Structural)]
pub struct CastlingRights {
    pub white_king_side: bool,
    pub white_queen_side: bool,
    pub black_king_side: bool,
    pub black_queen_side: bool,
}

impl CastlingRights {
    /// Whether the given player may still castle on the given side.
    pub open spec fn spec_allows(self, color: Color, king_side: bool) -> bool {
        match color {
            Color::White => if king_side {
                self.white_king_side
            } else {
                self.white_queen_side
            },
            Color::Black => if king_side {
                self.black_king_side
            } else {
                self.black_queen_side
            },
        }
    }

    /// All four rights, as at the start of a game.
    pub fn all() -> (rights: CastlingRights)
        ensures
            rights == (CastlingRights {
                white_king_side: true,
                white_queen_side: true,
                black_king_side: true,
                black_queen_side: true,
            }),
    {
        CastlingRights {
            white_king_side: true,
            white_queen_side: true,
            black_king_side: true,
            black_queen_side: true,
        }
    }

    /// Whether the given player may still castle on the given side.
    #[verifier::when_used_as_spec(spec_allows)]
    pub fn allows(self, color: Color, king_side: bool) -> (yes: bool)
        ensures
            yes == self.spec_allows(color, king_side),
    {
        match color {
            Color::White => if king_side {
                self.white_king_side
            } else {
                self.white_queen_side
            },
            Color::Black => if king_side {
                self.black_king_side
            } else {
                self.black_queen_side
            },
        }
    }
}

/// The square on which a player's king starts.
pub open spec fn king_home(color: Color) -> Square {
    Square { file: 4, rank: color.spec_home_rank() as u8 }
}

/// The square on which a player's rook of the given side starts.
pub open spec fn rook_home(color: Color, king_side: bool) -> Square {
    Square {
        file: if king_side {
            7
        } else {
            0
        },
        rank: color.spec_home_rank() as u8,
    }
}

} // verus!
