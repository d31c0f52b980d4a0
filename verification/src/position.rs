//! A position as data, and the rules applied to it.

use vstd::prelude::*;
use crate::board::{square_at, Board};
use crate::castling::CastlingRights;
use crate::piece::{Color, Piece, PieceType};
use crate::rules::{
    castling_after,
    en_passant_after,
    forfeits,
    grid_after,
    is_promotion,
    legal_target_of,
    PositionView,
};
use crate::square::Square;
use crate::status::{GameStatus, MoveError};
use crate::targets::squares_where;

verus! {

impl Board {
    /// The board after the piece on `from` has moved to `to`; no rule is
    /// consulted.
    pub(crate) fn after_move(
        &self,
        en_passant: Option<Square>,
        from: Square,
        to: Square,
        promotion: PieceType,
    ) -> (next: Board)
        requires
            from.valid(),
            to.valid(),
        ensures
            next@ == grid_after(self@, en_passant, from, to, promotion),
    {
        let mut next = *self;
        let origin: usize = from.file as usize * 8 + from.rank as usize;
        let target: usize = to.file as usize * 8 + to.rank as usize;
        let leaving = self.cells[origin];
        let mut pawn = false;
        let mut king = false;
        let arriving = match leaving {
            Some(piece) => {
                pawn = piece.piecetype == PieceType::Pawn;
                king = piece.piecetype == PieceType::King;
                if pawn && to.rank == piece.color.opposite().home_rank() {
                    Some(Piece { piecetype: promotion, color: piece.color })
                } else {
                    Some(piece)
                }
            },
            None => None,
        };
        next.cells[origin] = None;
        next.cells[target] = arriving;
        let passing = match en_passant {
            Some(square) => square.file == to.file && square.rank == to.rank,
            None => false,
        };
        if pawn && passing && to.file != from.file {
            next.cells[to.file as usize * 8 + from.rank as usize] = None;
        } else if king && (to.file == from.file + 2 || from.file == to.file + 2) {
            let corner: usize = if to.file > from.file {
                56 + from.rank as usize
            } else {
                from.rank as usize
            };
            let passed: usize = if to.file > from.file {
                (from.file as usize + 1) * 8 + from.rank as usize
            } else {
                (from.file as usize - 1) * 8 + from.rank as usize
            };
            let rook = next.cells[corner];
            next.cells[corner] = None;
            next.cells[passed] = rook;
        }
        assert(next@ =~= grid_after(self@, en_passant, from, to, promotion));
        next
    }
}

/// A position: the board, the side to move, the castling rights, the
/// en-passant target and the kind of piece that the next promoted pawn
/// becomes.  Any value is accepted; the rules are applied to it as it is.
#[derive(Clone, Copy, Debug, PartialEq, Eq)]
pub struct Position {
    pub board: Board,
    pub turn: Color,
    pub castling: CastlingRights,
    pub en_passant: Option<Square>,
    pub promotion: PieceType,
}

impl View for Position {
    type V = PositionView;

    open spec fn view(&self) -> PositionView {
        PositionView {
            grid: self.board@,
            turn: self.turn,
            castling: self.castling,
            en_passant: self.en_passant,
            promotion: self.promotion,
        }
    }
}

impl Position {
    /// The position in which every game starts: the standard board, White to
    /// move, every castling right, no en-passant target, promotion to a
    /// queen.
    pub fn initial() -> (position: Position)
        ensures
            position@ == PositionView::initial(),
    {
        Position {
            board: Board::standard(),
            turn: Color::White,
            castling: CastlingRights::all(),
            en_passant: None,
            promotion: PieceType::Queen,
        }
    }

    /// Whether the move takes away the right of `color` to castle on the
    /// given side.
    fn forfeits_right(&self, from: Square, to: Square, color: Color, king_side: bool) -> (yes:
        bool)
        requires
            from.valid(),
            to.valid(),
        ensures
            yes == forfeits(self@.grid, from, to, color, king_side),
    {
        let corner_file: u8 = if king_side {
            7
        } else {
            0
        };
        let corner_rank: u8 = color.home_rank();
        let king_moves = match self.board.get(from) {
            Some(piece) => piece.piecetype == PieceType::King && piece.color == color,
            None => false,
        };
        let rook_leaves = from.file == corner_file && from.rank == corner_rank && match self.board.get(
            from,
        ) {
            Some(piece) => piece.piecetype == PieceType::Rook && piece.color == color,
            None => false,
        };
        let rook_taken = to.file == corner_file && to.rank == corner_rank && match self.board.get(
            to,
        ) {
            Some(piece) => piece.piecetype == PieceType::Rook && piece.color == color,
            None => false,
        };
        king_moves || rook_leaves || rook_taken
    }

    /// The castling rights after the move from `from` to `to`.
    fn next_castling(&self, from: Square, to: Square) -> (rights: CastlingRights)
        requires
            from.valid(),
            to.valid(),
        ensures
            rights == castling_after(self@.castling, self@.grid, from, to),
    {
        CastlingRights {
            white_king_side: self.castling.white_king_side && !self.forfeits_right(
                from,
                to,
                Color::White,
                true,
            ),
            white_queen_side: self.castling.white_queen_side && !self.forfeits_right(
                from,
                to,
                Color::White,
                false,
            ),
            black_king_side: self.castling.black_king_side && !self.forfeits_right(
                from,
                to,
                Color::Black,
                true,
            ),
            black_queen_side: self.castling.black_queen_side && !self.forfeits_right(
                from,
                to,
                Color::Black,
                false,
            ),
        }
    }

    /// The en-passant target after the move from `from` to `to`.
    fn next_en_passant(&self, from: Square, to: Square) -> (target: Option<Square>)
        requires
            from.valid(),
            to.valid(),
        ensures
            target == en_passant_after(self@.grid, from, to),
    {
        let pawn = match self.board.get(from) {
            Some(piece) => piece.piecetype == PieceType::Pawn,
            None => false,
        };
        if pawn && to.file == from.file && (to.rank == from.rank + 2 || from.rank == to.rank + 2) {
            Some(Square { file: from.file, rank: (from.rank + to.rank) / 2 })
        } else {
            None
        }
    }

    /// Whether the move from `from` to `to` promotes a pawn.
    fn promotes(&self, from: Square, to: Square) -> (yes: bool)
        requires
            from.valid(),
            to.valid(),
        ensures
            yes == is_promotion(self@.grid, from, to),
    {
        match self.board.get(from) {
            Some(piece) => piece.piecetype == PieceType::Pawn && to.rank
                == piece.color.opposite().home_rank(),
            None => false,
        }
    }

    /// Whether the side to move may castle by moving its king from `from` to
    /// `to`, apart from the safety of the square on which the king lands.
    fn can_castle(&self, from: Square, to: Square) -> (yes: bool)
        requires
            from.valid(),
            to.valid(),
        ensures
            yes == self@.castle_target(from, to),
    {
        let color = self.turn;
        let rank: u8 = color.home_rank();
        if !(from.file == 4 && from.rank == rank && to.rank == rank && (to.file == 6 || to.file
            == 2)) {
            return false;
        }
        let king_side = to.file == 6;
        let king_here = match self.board.get(from) {
            Some(piece) => piece.piecetype == PieceType::King && piece.color == color,
            None => false,
        };
        let corner = Square {
            file: if king_side {
                7
            } else {
                0
            },
            rank,
        };
        let rook_there = match self.board.get(corner) {
            Some(piece) => piece.piecetype == PieceType::Rook && piece.color == color,
            None => false,
        };
        if !(king_here && rook_there && self.castling.allows(color, king_side)) {
            return false;
        }
        let gap_empty = if king_side {
            self.board.get(Square { file: 5, rank }).is_none() && self.board.get(
                Square { file: 6, rank },
            ).is_none()
        } else {
            self.board.get(Square { file: 1, rank }).is_none() && self.board.get(
                Square { file: 2, rank },
            ).is_none() && self.board.get(Square { file: 3, rank }).is_none()
        };
        if !gap_empty {
            return false;
        }
        if self.board.is_in_check(color) {
            return false;
        }
        let passed = Square {
            file: if king_side {
                5
            } else {
                3
            },
            rank,
        };
        let stepped = self.board.after_move(None, from, passed, self.promotion);
        !stepped.is_in_check(color)
    }

    /// Whether the move from `from` to `to` is legal.
    pub fn is_legal_move(&self, from: Square, to: Square) -> (yes: bool)
        ensures
            yes == self@.legal(from, to),
    {
        if !(from.is_valid() && to.is_valid()) {
            return false;
        }
        let mine = match self.board.get(from) {
            Some(piece) => piece.color == self.turn,
            None => false,
        };
        if !mine {
            return false;
        }
        if !(self.board.is_raw_target(from, to, self.en_passant) || self.can_castle(from, to)) {
            return false;
        }
        let next = self.board.after_move(self.en_passant, from, to, self.promotion);
        !next.is_in_check(self.turn)
    }

    /// The legal destinations of the piece on `from`, in ascending order (by
    /// file, then by rank).  There is none if the square lies off the board,
    /// is empty or holds a piece of the side that is not to move.
    pub fn legal_targets(&self, from: Square) -> (targets: Vec<Square>)
        ensures
            targets@ == self@.legal_targets(from),
    {
        let ghost wanted = legal_target_of(self@, from);
        let mut targets: Vec<Square> = Vec::new();
        let mut index: u8 = 0;
        while index < 64
            invariant
                index <= 64,
                wanted == legal_target_of(self@, from),
                targets@ == squares_where(wanted, index as int),
            decreases 64 - index,
        {
            let to = Square { file: index / 8, rank: index % 8 };
            assert(to == square_at(index as int));
            if self.is_legal_move(from, to) {
                targets.push(to);
            }
            index = index + 1;
        }
        targets
    }

    /// Whether the piece on `from` has a legal move.
    fn has_legal_move_from(&self, from: Square) -> (yes: bool)
        ensures
            yes == exists|to: Square| #[trigger] self@.legal(from, to),
    {
        let mut index: u8 = 0;
        while index < 64
            invariant
                index <= 64,
                forall|to: Square|
                    to.valid() && to.index() < index ==> !#[trigger] self@.legal(from, to),
            decreases 64 - index,
        {
            let to = Square { file: index / 8, rank: index % 8 };
            if self.is_legal_move(from, to) {
                return true;
            }
            assert forall|other: Square|
                other.valid() && other.index() < index + 1 implies !#[trigger] self@.legal(
                from,
                other,
            ) by {
                if other.index() == index {
                    assert(other == to);
                }
            }
            index = index + 1;
        }
        false
    }

    /// Whether the side to move has any legal move.
    pub fn has_legal_move(&self) -> (yes: bool)
        ensures
            yes == self@.has_legal_move(),
    {
        let mut index: u8 = 0;
        while index < 64
            invariant
                index <= 64,
                forall|from: Square, to: Square|
                    from.valid() && from.index() < index ==> !#[trigger] self@.legal(from, to),
            decreases 64 - index,
        {
            let from = Square { file: index / 8, rank: index % 8 };
            if self.has_legal_move_from(from) {
                return true;
            }
            assert forall|other: Square, to: Square|
                other.valid() && other.index() < index + 1 implies !#[trigger] self@.legal(
                other,
                to,
            ) by {
                if other.index() == index {
                    assert(other == from);
                }
            }
            index = index + 1;
        }
        false
    }

    /// The status of the position: check or checkmate if the king of the
    /// side to move is attacked, ongoing or stalemate if it is not, according
    /// to whether the side to move has a legal move.
    pub fn status(&self) -> (status: GameStatus)
        ensures
            status == self@.status(),
    {
        let checked = self.board.is_in_check(self.turn);
        let movable = self.has_legal_move();
        if checked {
            if movable {
                GameStatus::Check(self.turn)
            } else {
                GameStatus::Checkmate(self.turn)
            }
        } else {
            if movable {
                GameStatus::Ongoing
            } else {
                GameStatus::Stalemate
            }
        }
    }

    /// The position after the piece on `from` has moved to `to`.  Whether
    /// the move is legal is not asked.  `InvalidSquare` if a square lies off
    /// the board.
    pub fn after_move(&self, from: Square, to: Square) -> (next: Result<Position, MoveError>)
        ensures
            from.valid() && to.valid() ==> (next matches Ok(position) && position@
                == self@.after(from, to)),
            !(from.valid() && to.valid()) ==> next matches Err(MoveError::InvalidSquare),
    {
        if from.is_valid() && to.is_valid() {
            Ok(self.moved(from, to))
        } else {
            Err(MoveError::InvalidSquare)
        }
    }

    /// The position after the piece on `from` has moved to `to`.
    pub(crate) fn moved(&self, from: Square, to: Square) -> (next: Position)
        requires
            from.valid(),
            to.valid(),
        ensures
            next@ == self@.after(from, to),
    {
        Position {
            board: self.board.after_move(self.en_passant, from, to, self.promotion),
            turn: self.turn.opposite(),
            castling: self.next_castling(from, to),
            en_passant: self.next_en_passant(from, to),
            promotion: if self.promotes(from, to) {
                PieceType::Queen
            } else {
                self.promotion
            },
        }
    }
}

} // verus!
