//! What holds of every position that play can reach, and why a legal move
//! keeps it so.

use vstd::prelude::*;
use crate::attack::{attacked, in_check, lemma_occupied_target_ignores_en_passant};
use crate::board::{back_rank_kind, cell, holds_color, standard_cell, standard_grid};
use crate::castling::{king_home, rook_home, CastlingRights};
use crate::piece::{Color, Piece, PieceType};
use crate::rules::{
    arriving_piece,
    forfeits,
    is_castling_move,
    is_double_advance,
    is_en_passant_capture,
    PositionView,
};
use crate::square::Square;
use crate::status::GameStatus;
use crate::targets::raw_target;

verus! {

/// Whether a square holds the king of the given colour.
pub open spec fn is_king_of(grid: Seq<Option<Piece>>, square: Square, color: Color) -> bool {
    cell(grid, square) == Some(Piece { piecetype: PieceType::King, color })
}

/// Whether the board holds exactly one king of the given colour.
pub open spec fn one_king(grid: Seq<Option<Piece>>, color: Color) -> bool {
    exists|king: Square|
        king.valid() && #[trigger] is_king_of(grid, king, color) && forall|other: Square|
            other.valid() && #[trigger] is_king_of(grid, other, color) ==> other == king
}

/// Whether a castling right that is still held is backed by the board: the
/// king and the rook of that side stand at home.
pub open spec fn right_backed(
    grid: Seq<Option<Piece>>,
    rights: CastlingRights,
    color: Color,
    king_side: bool,
) -> bool {
    rights.spec_allows(color, king_side) ==> is_king_of(grid, king_home(color), color) && cell(
        grid,
        rook_home(color, king_side),
    ) == Some(Piece { piecetype: PieceType::Rook, color })
}

impl PositionView {
    /// Whether the en-passant target, if there is one, is the square that a
    /// pawn of the side that just moved has skipped: it lies one rank beyond
    /// that side's pawn rank and is empty, the pawn stands on the square
    /// beyond it, and the square before it is empty.
    pub open spec fn en_passant_sound(self) -> bool {
        self.en_passant matches Some(target) ==> {
            let mover = self.turn.spec_opposite();
            &&& target.valid()
            &&& target.rank == mover.spec_pawn_rank() + mover.spec_forward()
            &&& cell(self.grid, target) is None
            &&& self.grid[target.index() + mover.spec_forward()] == Some(
                Piece { piecetype: PieceType::Pawn, color: mover },
            )
            &&& self.grid[target.index() - mover.spec_forward()] is None
        }
    }

    /// Whether every castling right that is still held is backed by the
    /// board.
    pub open spec fn castling_sound(self) -> bool {
        &&& right_backed(self.grid, self.castling, Color::White, true)
        &&& right_backed(self.grid, self.castling, Color::White, false)
        &&& right_backed(self.grid, self.castling, Color::Black, true)
        &&& right_backed(self.grid, self.castling, Color::Black, false)
    }

    /// What holds of every position that play can reach: the board has
    /// sixty-four cells with exactly one king of each colour, the side that
    /// is not to move is not in check, the promotion choice is a queen, rook,
    /// bishop or knight, and the en-passant target and the castling rights
    /// agree with the board.
    pub open spec fn sound(self) -> bool {
        &&& self.grid.len() == 64
        &&& self.promotion.spec_promotable()
        &&& one_king(self.grid, Color::White)
        &&& one_king(self.grid, Color::Black)
        &&& !in_check(self.grid, self.turn.spec_opposite())
        &&& self.en_passant_sound()
        &&& self.castling_sound()
    }
}

/// A legal move in a sound position captures no king.
pub proof fn lemma_legal_move_spares_kings(position: PositionView, from: Square, to: Square)
    requires
        position.sound(),
        position.legal(from, to),
    ensures
        !(cell(position.grid, to) matches Some(piece) && piece.piecetype == PieceType::King),
{
    let grid = position.grid;
    let enemy = position.turn.spec_opposite();
    if cell(grid, to) matches Some(piece) && piece.piecetype == PieceType::King {
        assert(!position.castle_target(from, to));
        assert(raw_target(grid, position.en_passant, from, to));
        lemma_occupied_target_ignores_en_passant(grid, position.en_passant, from, to);
        assert(is_king_of(grid, to, enemy));
        assert(attacked(grid, to, position.turn));
        assert(in_check(grid, enemy));
    }
}

/// What a cell holds after a legal move in a sound position: the
/// destination holds the arriving piece and the origin is empty; after a
/// capture onto the en-passant target the passed pawn is gone; after castling
/// the rook has come from its corner to the square beside the king; every
/// other cell is as before.
pub proof fn lemma_cell_after_legal_move(
    position: PositionView,
    from: Square,
    to: Square,
    at: Square,
)
    requires
        position.sound(),
        position.legal(from, to),
        at.valid(),
    ensures
        position.grid_after(from, to).len() == 64,
        cell(position.grid_after(from, to), at) == if at == to {
            arriving_piece(position.grid, from, to, position.promotion)
        } else if at == from {
            None
        } else if is_en_passant_capture(position.grid, position.en_passant, from, to) && at == (
        Square { file: to.file, rank: from.rank }) {
            None
        } else if is_castling_move(position.grid, from, to) && at == rook_home(
            position.turn,
            to.file == 6,
        ) {
            None
        } else if is_castling_move(position.grid, from, to) && at == (Square {
            file: if to.file == 6 {
                5
            } else {
                3
            },
            rank: from.rank,
        }) {
            Some(Piece { piecetype: PieceType::Rook, color: position.turn })
        } else {
            cell(position.grid, at)
        },
{
    let grid = position.grid;
    if is_castling_move(grid, from, to) {
        assert(!raw_target(grid, position.en_passant, from, to));
        assert(position.castle_target(from, to));
    }
}

/// A legal move in a sound position leaves each side its one king.
pub proof fn lemma_legal_move_keeps_kings(
    position: PositionView,
    from: Square,
    to: Square,
    color: Color,
)
    requires
        position.sound(),
        position.legal(from, to),
    ensures
        one_king(position.grid_after(from, to), color),
{
    let grid = position.grid;
    let next = position.grid_after(from, to);
    lemma_legal_move_spares_kings(position, from, to);
    let old_king = choose|king: Square|
        king.valid() && #[trigger] is_king_of(grid, king, color) && forall|other: Square|
            other.valid() && #[trigger] is_king_of(grid, other, color) ==> other == king;
    let new_king = if from == old_king {
        to
    } else {
        old_king
    };
    lemma_cell_after_legal_move(position, from, to, new_king);
    assert(is_king_of(next, new_king, color));
    assert forall|other: Square| other.valid() && #[trigger] is_king_of(next, other, color) implies other
        == new_king by {
        lemma_cell_after_legal_move(position, from, to, other);
        if other == to {
            assert(position.promotion != PieceType::King);
            assert(is_king_of(grid, from, color));
        } else {
            assert(other != from);
            assert(is_king_of(grid, other, color));
        }
    }
}

/// A legal move in a sound position leaves an en-passant target only
/// behind a pawn that has just advanced two squares.
pub proof fn lemma_legal_move_keeps_en_passant_sound(
    position: PositionView,
    from: Square,
    to: Square,
)
    requires
        position.sound(),
        position.legal(from, to),
    ensures
        position.after(from, to).en_passant_sound(),
{
    let grid = position.grid;
    if is_double_advance(grid, from, to) {
        let target = Square { file: from.file, rank: ((from.rank + to.rank) / 2) as u8 };
        assert(!position.castle_target(from, to));
        assert(raw_target(grid, position.en_passant, from, to));
        lemma_cell_after_legal_move(position, from, to, target);
        lemma_cell_after_legal_move(position, from, to, from);
        lemma_cell_after_legal_move(position, from, to, to);
    }
}

/// A legal move in a sound position leaves every castling right that is
/// still held backed by the board.
pub proof fn lemma_legal_move_keeps_castling_sound(
    position: PositionView,
    from: Square,
    to: Square,
)
    requires
        position.sound(),
        position.legal(from, to),
    ensures
        position.after(from, to).castling_sound(),
{
    let next = position.after(from, to);
    lemma_legal_move_spares_kings(position, from, to);
    assert forall|color: Color, king_side: bool| #[trigger]
        right_backed(next.grid, next.castling, color, king_side) by {
        if next.castling.spec_allows(color, king_side) {
            assert(position.castling.spec_allows(color, king_side));
            assert(!forfeits(position.grid, from, to, color, king_side));
            assert(right_backed(position.grid, position.castling, color, king_side));
            lemma_cell_after_legal_move(position, from, to, king_home(color));
            lemma_cell_after_legal_move(position, from, to, rook_home(color, king_side));
        }
    }
}

/// A legal move takes a sound position to a sound position.
pub proof fn lemma_legal_move_keeps_soundness(position: PositionView, from: Square, to: Square)
    requires
        position.sound(),
        position.legal(from, to),
    ensures
        position.after(from, to).sound(),
{
    lemma_cell_after_legal_move(position, from, to, from);
    lemma_legal_move_keeps_kings(position, from, to, Color::White);
    lemma_legal_move_keeps_kings(position, from, to, Color::Black);
    lemma_legal_move_keeps_en_passant_sound(position, from, to);
    lemma_legal_move_keeps_castling_sound(position, from, to);
}

/// The standard board holds sixty-four cells, and on each what the
/// starting position prescribes.
pub proof fn lemma_standard_cells(at: Square)
    requires
        at.valid(),
    ensures
        standard_grid().len() == 64,
        cell(standard_grid(), at) == standard_cell(at.file as int, at.rank as int),
{
    assert(at.index() / 8 == at.file && at.index() % 8 == at.rank);
}

/// On a board whose pieces stand as at the start on the two ranks of one
/// side, that side attacks nothing on the far back rank.
proof fn lemma_no_attack_across_the_board(grid: Seq<Option<Piece>>, target: Square, by: Color)
    requires
        grid.len() == 64,
        target.valid(),
        target.rank == by.spec_opposite().spec_home_rank(),
        forall|from: Square|
            from.valid() && #[trigger] holds_color(grid, from, by) ==> {
                &&& (from.rank == by.spec_home_rank() || from.rank == by.spec_pawn_rank())
                &&& from.rank == by.spec_pawn_rank() ==> cell(grid, from)->0.piecetype
                    == PieceType::Pawn
                &&& from.rank == by.spec_home_rank() ==> cell(grid, from)->0.piecetype
                    == back_rank_kind(from.file as int)
            },
        target.file == 4,
    ensures
        !attacked(grid, target, by),
{
    assert forall|from: Square| holds_color(grid, from, by) implies !#[trigger] raw_target(
        grid,
        None,
        from,
        target,
    ) by {
        if from.valid() {
            assert(holds_color(grid, from, by));
        }
    }
}

/// The starting position is sound.
pub proof fn lemma_initial_position_sound()
    ensures
        PositionView::initial().sound(),
{
    let grid = standard_grid();
    let white_king = Square { file: 4, rank: 0 };
    let black_king = Square { file: 4, rank: 7 };
    assert forall|at: Square| at.valid() implies #[trigger] cell(grid, at) == standard_cell(
        at.file as int,
        at.rank as int,
    ) by {
        lemma_standard_cells(at);
    }
    lemma_standard_cells(white_king);
    assert(is_king_of(grid, white_king, Color::White));
    assert(is_king_of(grid, black_king, Color::Black));
    assert forall|other: Square|
        other.valid() && #[trigger] is_king_of(grid, other, Color::White) implies other
        == white_king by {
        assert(cell(grid, other) == standard_cell(other.file as int, other.rank as int));
    }
    assert forall|other: Square|
        other.valid() && #[trigger] is_king_of(grid, other, Color::Black) implies other
        == black_king by {
        assert(cell(grid, other) == standard_cell(other.file as int, other.rank as int));
    }
    assert forall|king: Square|
        king.valid() && is_king_of(grid, king, Color::Black) implies !#[trigger] attacked(
        grid,
        king,
        Color::White,
    ) by {
        assert(king == black_king);
        assert forall|from: Square| from.valid() && #[trigger] holds_color(
            grid,
            from,
            Color::White,
        ) implies from.rank <= 1 by {
            assert(cell(grid, from) == standard_cell(from.file as int, from.rank as int));
        }
        lemma_no_attack_across_the_board(grid, king, Color::White);
    }
    lemma_standard_cells(rook_home(Color::White, true));
    lemma_standard_cells(rook_home(Color::White, false));
    lemma_standard_cells(rook_home(Color::Black, true));
    lemma_standard_cells(rook_home(Color::Black, false));
}

/// At the start White is not in check and has a legal move: the game is
/// ongoing.
pub proof fn lemma_initial_status()
    ensures
        PositionView::initial().status() == GameStatus::Ongoing,
{
    let start = PositionView::initial();
    let grid = standard_grid();
    let king = Square { file: 4, rank: 0 };
    let from = Square { file: 4, rank: 1 };
    let to = Square { file: 4, rank: 2 };
    assert forall|at: Square| at.valid() implies #[trigger] cell(grid, at) == standard_cell(
        at.file as int,
        at.rank as int,
    ) by {
        lemma_standard_cells(at);
    }
    lemma_standard_cells(king);
    assert forall|other: Square|
        other.valid() && is_king_of(grid, other, Color::White) implies !#[trigger] attacked(
        grid,
        other,
        Color::Black,
    ) by {
        assert(cell(grid, other) == standard_cell(other.file as int, other.rank as int));
        assert(other == king);
        assert forall|piece: Square| piece.valid() && #[trigger] holds_color(
            grid,
            piece,
            Color::Black,
        ) implies piece.rank >= 6 by {
            assert(cell(grid, piece) == standard_cell(piece.file as int, piece.rank as int));
        }
        lemma_no_attack_across_the_board(grid, other, Color::Black);
    }
    assert(!in_check(grid, Color::White));
    let next = start.grid_after(from, to);
    assert(cell(grid, from) == standard_cell(4, 1));
    assert(cell(grid, to) == standard_cell(4, 2));
    assert(raw_target(grid, None, from, to));
    assert(next =~= grid.update(from.index(), None).update(to.index(), cell(grid, from)));
    assert forall|at: Square| at.valid() && at != from && at != to implies #[trigger] cell(
        next,
        at,
    ) == standard_cell(at.file as int, at.rank as int) by {
        assert(cell(grid, at) == standard_cell(at.file as int, at.rank as int));
    }
    assert forall|other: Square|
        other.valid() && is_king_of(next, other, Color::White) implies !#[trigger] attacked(
        next,
        other,
        Color::Black,
    ) by {
        assert(other != to && other != from);
        assert(cell(next, other) == standard_cell(other.file as int, other.rank as int));
        assert(other == king);
        assert forall|piece: Square| piece.valid() && #[trigger] holds_color(
            next,
            piece,
            Color::Black,
        ) implies piece.rank >= 6 by {
            if piece != from && piece != to {
                assert(cell(next, piece) == standard_cell(piece.file as int, piece.rank as int));
            }
        }
        lemma_no_attack_across_the_board(next, other, Color::Black);
    }
    assert(!in_check(next, Color::White));
    assert(start.legal(from, to));
}

} // verus!
