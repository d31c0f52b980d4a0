//! The board: sixty-four cells, each empty or holding one piece.

use vstd::prelude::*;
use crate::piece::{Color, Piece, PieceType};
use crate::square::Square;
use crate::status::MoveError;

verus! {

/// The square whose position in a sequence of cells is `index`.
pub open spec fn square_at(index: int) -> Square {
    Square { file: (index / 8) as u8, rank: (index % 8) as u8 }
}

/// What a sequence of cells holds on a square.
pub open spec fn cell(grid: Seq<Option<Piece>>, square: Square) -> Option<Piece> {
    grid[square.index()]
}

/// Whether a sequence of cells holds a piece of the given colour on a square.
pub open spec fn holds_color(grid: Seq<Option<Piece>>, square: Square, color: Color) -> bool {
    cell(grid, square) matches Some(piece) && piece.color == color
}

/// The kind of the piece that starts on the given file of a back rank.
pub open spec fn back_rank_kind(file: int) -> PieceType {
    if file == 0 || file == 7 {
        PieceType::Rook
    } else if file == 1 || file == 6 {
        PieceType::Knight
    } else if file == 2 || file == 5 {
        PieceType::Bishop
    } else if file == 3 {
        PieceType::Queen
    } else {
        PieceType::King
    }
}

/// What the starting position holds on the given file and rank.
pub open spec fn standard_cell(file: int, rank: int) -> Option<Piece> {
    if rank == 0 {
        Some(Piece { piecetype: back_rank_kind(file), color: Color::White })
    } else if rank == 1 {
        Some(Piece { piecetype: PieceType::Pawn, color: Color::White })
    } else if rank == 6 {
        Some(Piece { piecetype: PieceType::Pawn, color: Color::Black })
    } else if rank == 7 {
        Some(Piece { piecetype: back_rank_kind(file), color: Color::Black })
    } else {
        None
    }
}

/// The cells of the starting position.
pub open spec fn standard_grid() -> Seq<Option<Piece>> {
    Seq::new(64, |index: int| standard_cell(index / 8, index % 8))
}

/// A board of eight files and eight ranks.  The cell of the square on file `f` and rank `r` is
/// `cells[8 * f + r]`.
#[derive(Clone, Copy, Debug, PartialEq, Eq)]
pub struct Board {
    pub cells: [Option<Piece>; 64],
}

impl View for Board {
    type V = Seq<Option<Piece>>;

    /// The board as a sequence of sixty-four cells.
    open spec fn view(&self) -> Seq<Option<Piece>> {
        self.cells@
    }
}

/// The kind of the piece that starts on the given file of a back rank.
fn back_rank_piece(file: u8) -> (kind: PieceType)
    ensures
        kind == back_rank_kind(file as int),
{
    if file == 0 || file == 7 {
        PieceType::Rook
    } else if file == 1 || file == 6 {
        PieceType::Knight
    } else if file == 2 || file == 5 {
        PieceType::Bishop
    } else if file == 3 {
        PieceType::Queen
    } else {
        PieceType::King
    }
}

impl Board {
    /// A board without pieces.
    pub fn empty() -> (board: Board)
        ensures
            board@.len() == 64,
            forall|i: int| 0 <= i < 64 ==> board@[i] is None,
    {
        let nothing: Option<Piece> = None;
        Board { cells: [nothing;64] }
    }

    /// The board of the starting position.
    pub fn standard() -> (board: Board)
        ensures
            board@ == standard_grid(),
    {
        let nothing: Option<Piece> = None;
        let mut cells: [Option<Piece>; 64] = [nothing;64];
        let mut file: u8 = 0;
        while file < 8
            invariant
                file <= 8,
                forall|i: int| 0 <= i < 8 * file ==> cells@[i] == standard_cell(i / 8, i % 8),
                forall|i: int| 8 * file <= i < 64 ==> cells@[i] is None,
            decreases 8 - file,
        {
            let kind = back_rank_piece(file);
            let base: usize = file as usize * 8;
            cells[base] = Some(Piece { piecetype: kind, color: Color::White });
            cells[base + 1] = Some(Piece { piecetype: PieceType::Pawn, color: Color::White });
            cells[base + 6] = Some(Piece { piecetype: PieceType::Pawn, color: Color::Black });
            cells[base + 7] = Some(Piece { piecetype: kind, color: Color::Black });
            file = file + 1;
        }
        let board = Board { cells };
        assert(board@ =~= standard_grid());
        board
    }

    /// What the board holds on a square; `InvalidSquare` for a square off
    /// the board.
    pub fn piece_at(&self, square: Square) -> (found: Result<Option<Piece>, MoveError>)
        ensures
            square.valid() ==> found == Ok::<Option<Piece>, MoveError>(cell(self@, square)),
            !square.valid() ==> found == Err::<Option<Piece>, MoveError>(MoveError::InvalidSquare),
    {
        if square.file < 8 && square.rank < 8 {
            Ok(self.cells[square.file as usize * 8 + square.rank as usize])
        } else {
            Err(MoveError::InvalidSquare)
        }
    }

    /// What the board holds on a square of the board.
    pub(crate) fn get(&self, square: Square) -> (found: Option<Piece>)
        requires
            square.valid(),
        ensures
            found == cell(self@, square),
    {
        self.cells[square.file as usize * 8 + square.rank as usize]
    }

    /// Overwrites one cell, with a piece or with nothing.  No rule of the
    /// game is consulted.  A square off the board is refused with
    /// `InvalidSquare` and the board stays as it was.
    pub fn place(&mut self, square: Square, piece: Option<Piece>) -> (done: Result<(), MoveError>)
        ensures
            square.valid() ==> done is Ok
                && final(self)@ == old(self)@.update(square.index(), piece),
            !square.valid() ==> done == Err::<(), MoveError>(MoveError::InvalidSquare)
                && *final(self) == *old(self),
    {
        if square.file < 8 && square.rank < 8 {
            self.cells[square.file as usize * 8 + square.rank as usize] = piece;
            Ok(())
        } else {
            Err(MoveError::InvalidSquare)
        }
    }
}

} // verus!
