//! The rules as mathematics: how a move changes a position, which moves
//! are legal, and the status of a position.

use vstd::prelude::*;
use crate::attack::{differ_in_kind, in_check, lemma_check_ignores_kind};
use crate::board::{cell, holds_color, standard_grid};
use crate::castling::{king_home, rook_home, CastlingRights};
use crate::piece::{Color, Piece, PieceType};
use crate::square::Square;
use crate::status::GameStatus;
use crate::targets::{magnitude, raw_target, squares_where};

verus! {

/// What the rules need to know of a game: the cells, the side to move, the
/// castling rights, the en-passant target and the kind of piece that the
/// next promoted pawn becomes.
pub struct PositionView {
    pub grid: Seq<Option<Piece>>,
    pub turn: Color,
    pub castling: CastlingRights,
    pub en_passant: Option<Square>,
    pub promotion: PieceType,
}

/// Whether the move takes a pawn to the far rank, where it is promoted.
pub open spec fn is_promotion(grid: Seq<Option<Piece>>, from: Square, to: Square) -> bool {
    cell(grid, from) matches Some(piece) && piece.piecetype == PieceType::Pawn && to.rank
        == piece.color.spec_opposite().spec_home_rank()
}

/// Whether the move is a pawn's capture onto the en-passant target.
pub open spec fn is_en_passant_capture(
    grid: Seq<Option<Piece>>,
    en_passant: Option<Square>,
    from: Square,
    to: Square,
) -> bool {
    cell(grid, from) matches Some(piece) && piece.piecetype == PieceType::Pawn && en_passant
        == Some(to) && to.file != from.file
}

/// Whether the move takes a king two files sideways, as castling does.
pub open spec fn is_castling_move(grid: Seq<Option<Piece>>, from: Square, to: Square) -> bool {
    cell(grid, from) matches Some(piece) && piece.piecetype == PieceType::King && magnitude(
        to.file - from.file,
    ) == 2
}

/// Whether the move is a pawn's advance of two squares.
pub open spec fn is_double_advance(grid: Seq<Option<Piece>>, from: Square, to: Square) -> bool {
    cell(grid, from) matches Some(piece) && piece.piecetype == PieceType::Pawn && to.file
        == from.file && magnitude(to.rank - from.rank) == 2
}

/// The piece that arrives on the destination: the piece that left the
/// origin, or, for a pawn that reaches the far rank, a piece of the chosen
/// kind and of the pawn's colour.
pub open spec fn arriving_piece(
    grid: Seq<Option<Piece>>,
    from: Square,
    to: Square,
    promotion: PieceType,
) -> Option<Piece> {
    match cell(grid, from) {
        Some(piece) => if is_promotion(grid, from, to) {
            Some(Piece { piecetype: promotion, color: piece.color })
        } else {
            Some(piece)
        },
        None => None,
    }
}

/// The cells after the piece on `from` has moved to `to`.
///
/// The origin is emptied and the arriving piece replaces whatever the
/// destination held.  A pawn that captures onto the en-passant target also
/// removes what stands beside its origin on the destination's file.  A king
/// that moves two files also brings the rook from the corner on that side
/// to the square that the king passed over.
pub open spec fn grid_after(
    grid: Seq<Option<Piece>>,
    en_passant: Option<Square>,
    from: Square,
    to: Square,
    promotion: PieceType,
) -> Seq<Option<Piece>> {
    let moved = grid.update(from.index(), None).update(
        to.index(),
        arriving_piece(grid, from, to, promotion),
    );
    if is_en_passant_capture(grid, en_passant, from, to) {
        moved.update(8 * to.file + from.rank, None)
    } else if is_castling_move(grid, from, to) {
        let corner = 8 * (if to.file > from.file {
            7int
        } else {
            0int
        }) + from.rank;
        let passed = 8 * (if to.file > from.file {
            from.file + 1
        } else {
            from.file - 1
        }) + from.rank;
        moved.update(corner, None).update(passed, moved[corner])
    } else {
        moved
    }
}

/// Whether the move takes away the right of `color` to castle on the given
/// side: the player's king moves, the rook leaves its corner, or the rook is
/// captured on its corner.
pub open spec fn forfeits(
    grid: Seq<Option<Piece>>,
    from: Square,
    to: Square,
    color: Color,
    king_side: bool,
) -> bool {
    let rook = Some(Piece { piecetype: PieceType::Rook, color });
    ||| cell(grid, from) == Some(Piece { piecetype: PieceType::King, color })
    ||| (from == rook_home(color, king_side) && cell(grid, from) == rook)
    ||| (to == rook_home(color, king_side) && cell(grid, to) == rook)
}

/// The castling rights after a move.
pub open spec fn castling_after(
    rights: CastlingRights,
    grid: Seq<Option<Piece>>,
    from: Square,
    to: Square,
) -> CastlingRights {
    CastlingRights {
        white_king_side: rights.white_king_side && !forfeits(grid, from, to, Color::White, true),
        white_queen_side: rights.white_queen_side && !forfeits(
            grid,
            from,
            to,
            Color::White,
            false,
        ),
        black_king_side: rights.black_king_side && !forfeits(grid, from, to, Color::Black, true),
        black_queen_side: rights.black_queen_side && !forfeits(
            grid,
            from,
            to,
            Color::Black,
            false,
        ),
    }
}

/// The en-passant target after a move: the square that a pawn skipped by
/// advancing two squares, and nothing after any other move.
pub open spec fn en_passant_after(grid: Seq<Option<Piece>>, from: Square, to: Square) -> Option<
    Square,
> {
    if is_double_advance(grid, from, to) {
        Some(Square { file: from.file, rank: ((from.rank + to.rank) / 2) as u8 })
    } else {
        None
    }
}

/// Whether the squares between a player's king and rook, both at home, are
/// empty.
pub open spec fn castle_gap_empty(grid: Seq<Option<Piece>>, color: Color, king_side: bool) -> bool {
    let rank = color.spec_home_rank();
    if king_side {
        grid[40 + rank] is None && grid[48 + rank] is None
    } else {
        grid[8 + rank] is None && grid[16 + rank] is None && grid[24 + rank] is None
    }
}

impl PositionView {
    /// The position in which every game starts.
    pub open spec fn initial() -> PositionView {
        PositionView {
            grid: standard_grid(),
            turn: Color::White,
            castling: CastlingRights {
                white_king_side: true,
                white_queen_side: true,
                black_king_side: true,
                black_queen_side: true,
            },
            en_passant: None,
            promotion: PieceType::Queen,
        }
    }

    /// Whether the side to move may castle by moving its king from `from`
    /// to `to`, apart from the safety of the square on which the king lands.
    ///
    /// The king and the rook stand at home, the right is still held, the
    /// squares between them are empty, the king is not in check, and it
    /// would not be in check on the square that it passes over.
    pub open spec fn castle_target(self, from: Square, to: Square) -> bool {
        let color = self.turn;
        let king_side = to.file == 6;
        let passed = Square {
            file: if king_side {
                5
            } else {
                3
            },
            rank: from.rank,
        };
        &&& from == king_home(color)
        &&& to.rank == from.rank
        &&& (to.file == 6 || to.file == 2)
        &&& cell(self.grid, from) == Some(Piece { piecetype: PieceType::King, color })
        &&& cell(self.grid, rook_home(color, king_side)) == Some(
            Piece { piecetype: PieceType::Rook, color },
        )
        &&& self.castling.spec_allows(color, king_side)
        &&& castle_gap_empty(self.grid, color, king_side)
        &&& !in_check(self.grid, color)
        &&& !in_check(grid_after(self.grid, None, from, passed, self.promotion), color)
    }

    /// Whether the piece on `from` may go to `to` before the safety of the
    /// mover's king is considered: by its own way of moving, or by castling.
    pub open spec fn candidate(self, from: Square, to: Square) -> bool {
        raw_target(self.grid, self.en_passant, from, to) || self.castle_target(from, to)
    }

    /// The cells after the move from `from` to `to`.
    pub open spec fn grid_after(self, from: Square, to: Square) -> Seq<Option<Piece>> {
        grid_after(self.grid, self.en_passant, from, to, self.promotion)
    }

    /// Whether the move from `from` to `to` is legal: both squares lie on
    /// the board, `from` holds a piece of the side to move, `to` is a
    /// candidate destination, and after the move the mover's king is not
    /// attacked.
    pub open spec fn legal(self, from: Square, to: Square) -> bool {
        &&& from.valid()
        &&& to.valid()
        &&& holds_color(self.grid, from, self.turn)
        &&& self.candidate(from, to)
        &&& !in_check(self.grid_after(from, to), self.turn)
    }

    /// Whether the side to move has any legal move.
    pub open spec fn has_legal_move(self) -> bool {
        exists|from: Square, to: Square| #[trigger] self.legal(from, to)
    }

    /// The status of the position: check or checkmate if the king of the
    /// side to move is attacked, stalemate or ongoing if it is not, according
    /// to whether a legal move exists.
    pub open spec fn status(self) -> GameStatus {
        if in_check(self.grid, self.turn) {
            if self.has_legal_move() {
                GameStatus::Check(self.turn)
            } else {
                GameStatus::Checkmate(self.turn)
            }
        } else {
            if self.has_legal_move() {
                GameStatus::Ongoing
            } else {
                GameStatus::Stalemate
            }
        }
    }

    /// The position after the move from `from` to `to`: the cells change as
    /// `grid_after` says, the other side is to move, castling rights and
    /// en-passant target are brought up to date, and the promotion choice
    /// returns to the queen if the move promoted a pawn.
    pub open spec fn after(self, from: Square, to: Square) -> PositionView {
        PositionView {
            grid: self.grid_after(from, to),
            turn: self.turn.spec_opposite(),
            castling: castling_after(self.castling, self.grid, from, to),
            en_passant: en_passant_after(self.grid, from, to),
            promotion: if is_promotion(self.grid, from, to) {
                PieceType::Queen
            } else {
                self.promotion
            },
        }
    }
}

/// The test "is a legal destination of the piece on `from`".
pub open spec fn legal_target_of(position: PositionView, from: Square) -> spec_fn(Square) -> bool {
    |to: Square| position.legal(from, to)
}

impl PositionView {
    /// The legal destinations of the piece on `from`, in ascending order (by
    /// file, then by rank).
    pub open spec fn legal_targets(self, from: Square) -> Seq<Square> {
        squares_where(legal_target_of(self, from), 64)
    }

    /// The same position with another promotion choice.
    pub open spec fn with_promotion(self, kind: PieceType) -> PositionView {
        PositionView { promotion: kind, ..self }
    }
}

/// Whether a move is legal does not depend on the promotion choice.
pub proof fn lemma_legal_ignores_promotion(
    position: PositionView,
    kind: PieceType,
    from: Square,
    to: Square,
)
    requires
        position.grid.len() == 64,
        position.promotion.spec_promotable(),
        kind.spec_promotable(),
    ensures
        position.legal(from, to) == position.with_promotion(kind).legal(from, to),
{
    let other = position.with_promotion(kind);
    let grid = position.grid;
    let color = position.turn;
    if from.valid() && to.valid() && holds_color(grid, from, color) {
        if cell(grid, from)->0.piecetype != PieceType::Pawn {
            assert forall|target: Square| target.valid() implies #[trigger] grid_after(
                grid,
                None,
                from,
                target,
                position.promotion,
            ) =~= grid_after(grid, None, from, target, kind) by {}
            assert(position.grid_after(from, to) =~= other.grid_after(from, to));
            let passed = Square {
                file: if to.file == 6 {
                    5
                } else {
                    3
                },
                rank: from.rank,
            };
            assert(grid_after(grid, None, from, passed, position.promotion) == grid_after(
                grid,
                None,
                from,
                passed,
                kind,
            ));
            assert(position.castle_target(from, to) == other.castle_target(from, to));
        } else {
            assert(!position.castle_target(from, to));
            assert(!other.castle_target(from, to));
            let first = position.grid_after(from, to);
            let second = other.grid_after(from, to);
            if is_promotion(grid, from, to) && from.rank != to.rank {
                assert(differ_in_kind(first, second, to.index(), color));
                lemma_check_ignores_kind(first, second, to.index(), color);
            } else if is_promotion(grid, from, to) {
                assert(!raw_target(grid, position.en_passant, from, to));
            } else {
                assert(first =~= second);
            }
        }
    }
}

/// The status of a position does not depend on the promotion choice.
pub proof fn lemma_status_ignores_promotion(position: PositionView, kind: PieceType)
    requires
        position.grid.len() == 64,
        position.promotion.spec_promotable(),
        kind.spec_promotable(),
    ensures
        position.status() == position.with_promotion(kind).status(),
        position.has_legal_move() == position.with_promotion(kind).has_legal_move(),
{
    let other = position.with_promotion(kind);
    assert forall|from: Square, to: Square|
        position.legal(from, to) == #[trigger] other.legal(from, to) by {
        lemma_legal_ignores_promotion(position, kind, from, to);
    }
    if position.has_legal_move() {
        let (from, to) = choose|from: Square, to: Square| #[trigger] position.legal(from, to);
        assert(other.legal(from, to));
    }
    if other.has_legal_move() {
        let (from, to) = choose|from: Square, to: Square| #[trigger] other.legal(from, to);
        assert(position.legal(from, to));
    }
}

} // verus!
