//! Colours, piece kinds and pieces.

use vstd::prelude::*;

verus! {

/// One of the two players.
#[derive(Clone, Copy, Debug, PartialEq, Eq, Hash, Structural)]
pub enum Color {
    White,
    Black,
}

impl Color {
    /// The other player.
    pub open spec fn spec_opposite(self) -> Color {
        match self {
            Color::White => Color::Black,
            Color::Black => Color::White,
        }
    }

    /// The rank on which this player's pieces start, and on which the
    /// opponent's pawns promote.
    pub open spec fn spec_home_rank(self) -> int {
        match self {
            Color::White => 0,
            Color::Black => 7,
        }
    }

    /// The rank on which this player's pawns start.
    pub open spec fn spec_pawn_rank(self) -> int {
        match self {
            Color::White => 1,
            Color::Black => 6,
        }
    }

    /// The direction in which this player's pawns advance: one rank up for
    /// White, one rank down for Black.
    pub open spec fn spec_forward(self) -> int {
        match self {
            Color::White => 1,
            Color::Black => -1,
        }
    }

    /// The other player.
    #[verifier::when_used_as_spec(spec_opposite)]
    pub fn opposite(self) -> (other: Color)
        ensures
            other == self.spec_opposite(),
    {
        match self {
            Color::White => Color::Black,
            Color::Black => Color::White,
        }
    }

    /// The rank on which this player's pieces start.
    pub fn home_rank(self) -> (rank: u8)
        ensures
            rank == self.spec_home_rank(),
    {
        match self {
            Color::White => 0,
            Color::Black => 7,
        }
    }

    /// The rank on which this player's pawns start.
    pub fn pawn_rank(self) -> (rank: u8)
        ensures
            rank == self.spec_pawn_rank(),
    {
        match self {
            Color::White => 1,
            Color::Black => 6,
        }
    }
}

/// The kind of a piece.
#[derive(Clone, Copy, Debug, PartialEq, Eq, Hash, Structural)]
pub enum PieceType {
    King,
    Queen,
    Rook,
    Bishop,
    Knight,
    Pawn,
}

impl PieceType {
    /// Whether a pawn may be promoted to this kind.
    pub open spec fn spec_promotable(self) -> bool {
        self == PieceType::Queen || self == PieceType::Rook || self == PieceType::Bishop
            || self == PieceType::Knight
    }

    /// Whether a pawn may be promoted to this kind.
    #[verifier::when_used_as_spec(spec_promotable)]
    pub fn promotable(self) -> (yes: bool)
        ensures
            yes == self.spec_promotable(),
    {
        match self {
            PieceType::Queen | PieceType::Rook | PieceType::Bishop | PieceType::Knight => true,
            PieceType::King | PieceType::Pawn => false,
        }
    }
}

/// A piece: its kind and its owner.  A piece is a value; promotion replaces
/// it by another.
#[derive(Clone, Copy, Debug, PartialEq, Eq, Hash, Structural)]
pub struct Piece {
    pub piecetype: PieceType,
    pub color: Color,
}

impl Piece {
    /// A piece of the given kind and colour.
    pub fn new(piecetype: PieceType, color: Color) -> (piece: Piece)
        ensures
            piece == (Piece { piecetype, color }),
    {
        Piece { piecetype, color }
    }
}

} // verus!
