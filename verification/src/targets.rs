//! Where a piece may go by its own way of moving: geometry, blocking and
//! capture, without regard to the safety of the mover's king.

use vstd::prelude::*;
use crate::board::{cell, holds_color, square_at, Board};
use crate::piece::{Color, Piece, PieceType};
use crate::square::Square;
use crate::status::MoveError;

verus! {

/// The absolute value of a difference of coordinates.
pub open spec fn magnitude(delta: int) -> int {
    if delta < 0 {
        -delta
    } else {
        delta
    }
}

/// The sign of a difference of coordinates: -1, 0 or 1.
pub open spec fn direction(delta: int) -> int {
    if delta > 0 {
        1
    } else if delta < 0 {
        -1
    } else {
        0
    }
}

/// The coordinate reached from `start` after `steps` steps in a direction.
pub open spec fn shift(start: int, direction: int, steps: int) -> int {
    if direction > 0 {
        start + steps
    } else if direction < 0 {
        start - steps
    } else {
        start
    }
}

/// The number of king steps between two squares.
pub open spec fn span(from: Square, to: Square) -> int {
    let files = magnitude(to.file - from.file);
    let ranks = magnitude(to.rank - from.rank);
    if files >= ranks {
        files
    } else {
        ranks
    }
}

/// Whether two distinct squares share a file or a rank.
pub open spec fn straight(from: Square, to: Square) -> bool {
    (to.file == from.file) != (to.rank == from.rank)
}

/// Whether two distinct squares share a diagonal.
pub open spec fn diagonal(from: Square, to: Square) -> bool {
    to.file != from.file && magnitude(to.file - from.file) == magnitude(to.rank - from.rank)
}

/// The position, in a sequence of cells, of the square `steps` steps from
/// `from` on the line towards `to`.
pub open spec fn line_index(from: Square, to: Square, steps: int) -> int {
    8 * shift(from.file as int, direction(to.file - from.file), steps) + shift(
        from.rank as int,
        direction(to.rank - from.rank),
        steps,
    )
}

/// Whether every square strictly between two squares of one line is empty.
pub open spec fn path_clear(grid: Seq<Option<Piece>>, from: Square, to: Square) -> bool {
    forall|steps: int|
        0 < steps < span(from, to) ==> (#[trigger] grid[line_index(from, to, steps)]) is None
}

/// Whether `to` is one king step away from `from`.
pub open spec fn king_step(from: Square, to: Square) -> bool {
    span(from, to) == 1
}

/// Whether `to` is a knight's jump away from `from`.
pub open spec fn knight_jump(from: Square, to: Square) -> bool {
    let files = magnitude(to.file - from.file);
    let ranks = magnitude(to.rank - from.rank);
    (files == 1 && ranks == 2) || (files == 2 && ranks == 1)
}

/// Whether a pawn of the given colour may advance from `from` to `to`: one
/// square forward onto an empty square, or two from its starting rank over
/// an empty square onto an empty square.
pub open spec fn pawn_advance(
    grid: Seq<Option<Piece>>,
    color: Color,
    from: Square,
    to: Square,
) -> bool {
    let forward = color.spec_forward();
    &&& to.file == from.file
    &&& cell(grid, to) is None
    &&& (to.rank == from.rank + forward || (from.rank == color.spec_pawn_rank() && to.rank
        == from.rank + 2 * forward && grid[8 * from.file + from.rank + forward] is None))
}

/// Whether a pawn of the given colour may capture from `from` onto `to`: one
/// square diagonally forward, onto an enemy piece or onto the en-passant
/// target.
pub open spec fn pawn_capture(
    grid: Seq<Option<Piece>>,
    en_passant: Option<Square>,
    color: Color,
    from: Square,
    to: Square,
) -> bool {
    &&& magnitude(to.file - from.file) == 1
    &&& to.rank == from.rank + color.spec_forward()
    &&& (holds_color(grid, to, color.spec_opposite()) || en_passant == Some(to))
}

/// Whether the piece on `from` may go to `to` by its own way of moving.
///
/// Both squares lie on the board, `from` holds a piece and `to` holds no
/// piece of the same colour.  A king steps to an adjacent square; a knight
/// jumps; a queen, rook or bishop slides along its lines over empty squares;
/// a pawn advances or captures.  Castling is not among these moves.
pub open spec fn raw_target(
    grid: Seq<Option<Piece>>,
    en_passant: Option<Square>,
    from: Square,
    to: Square,
) -> bool {
    &&& from.valid()
    &&& to.valid()
    &&& cell(grid, from) matches Some(piece)
    &&& !holds_color(grid, to, piece.color)
    &&& match piece.piecetype {
        PieceType::King => king_step(from, to),
        PieceType::Knight => knight_jump(from, to),
        PieceType::Rook => straight(from, to) && path_clear(grid, from, to),
        PieceType::Bishop => diagonal(from, to) && path_clear(grid, from, to),
        PieceType::Queen => (straight(from, to) || diagonal(from, to)) && path_clear(
            grid,
            from,
            to,
        ),
        PieceType::Pawn => pawn_advance(grid, piece.color, from, to) || pawn_capture(
            grid,
            en_passant,
            piece.color,
            from,
            to,
        ),
    }
}

/// The squares before position `limit` that satisfy `wanted`, in ascending
/// order of position (by file, then by rank).
pub open spec fn squares_where(wanted: spec_fn(Square) -> bool, limit: int) -> Seq<Square>
    decreases limit,
{
    if limit <= 0 {
        Seq::empty()
    } else {
        let earlier = squares_where(wanted, limit - 1);
        if wanted(square_at(limit - 1)) {
            earlier.push(square_at(limit - 1))
        } else {
            earlier
        }
    }
}

/// The test "is a raw target of the piece on `from`".
pub open spec fn raw_target_of(
    grid: Seq<Option<Piece>>,
    en_passant: Option<Square>,
    from: Square,
) -> spec_fn(Square) -> bool {
    |to: Square| raw_target(grid, en_passant, from, to)
}

/// The raw targets of the piece on `from`, in ascending order.
pub open spec fn spec_raw_targets(
    grid: Seq<Option<Piece>>,
    en_passant: Option<Square>,
    from: Square,
) -> Seq<Square> {
    squares_where(raw_target_of(grid, en_passant, from), 64)
}

/// A square is listed by `squares_where` exactly if it lies on the board
/// before the limit and satisfies the test.
pub proof fn lemma_squares_where_contains(
    wanted: spec_fn(Square) -> bool,
    limit: int,
    square: Square,
)
    requires
        0 <= limit <= 64,
    ensures
        squares_where(wanted, limit).contains(square) <==> (square.valid() && square.index()
            < limit && wanted(square)),
    decreases limit,
{
    if limit > 0 {
        let earlier = squares_where(wanted, limit - 1);
        let last = square_at(limit - 1);
        lemma_squares_where_contains(wanted, limit - 1, square);
        assert(last.valid() && last.index() == limit - 1);
        assert(square.valid() && square.index() == limit - 1 ==> square == last);
        if wanted(last) {
            assert(earlier.push(last).last() == last);
            assert(earlier.push(last).drop_last() =~= earlier);
            assert forall|i: int| 0 <= i < earlier.len() implies #[trigger] earlier.push(last)[i]
                == earlier[i] by {}
            if earlier.push(last).contains(square) {
                let i = choose|i: int|
                    0 <= i < earlier.push(last).len() && earlier.push(last)[i] == square;
                if i < earlier.len() {
                    assert(earlier[i] == square);
                    assert(earlier.contains(square));
                }
            }
            if earlier.contains(square) {
                let i = choose|i: int| 0 <= i < earlier.len() && earlier[i] == square;
                assert(earlier.push(last)[i] == square);
            }
            if square == last {
                assert(earlier.push(last)[earlier.len() as int] == square);
            }
        }
    } else {
        assert(!Seq::<Square>::empty().contains(square));
    }
}

/// `squares_where` lists squares in strictly ascending order of position,
/// so none is listed twice.
pub proof fn lemma_squares_where_ascending(wanted: spec_fn(Square) -> bool, limit: int)
    requires
        0 <= limit <= 64,
    ensures
        forall|i: int, j: int|
            0 <= i < j < squares_where(wanted, limit).len() ==> (#[trigger] squares_where(
                wanted,
                limit,
            )[i]).index() < (#[trigger] squares_where(wanted, limit)[j]).index(),
        forall|i: int|
            0 <= i < squares_where(wanted, limit).len() ==> (#[trigger] squares_where(
                wanted,
                limit,
            )[i]).index() < limit,
    decreases limit,
{
    let listed = squares_where(wanted, limit);
    if limit > 0 {
        lemma_squares_where_ascending(wanted, limit - 1);
        let earlier = squares_where(wanted, limit - 1);
        let last = square_at(limit - 1);
        assert(last.index() == limit - 1);
        assert forall|i: int| 0 <= i < listed.len() implies (#[trigger] listed[i]).index()
            < limit by {
            if i < earlier.len() {
                assert(listed[i] == earlier[i]);
            }
        }
        assert forall|i: int, j: int| 0 <= i < j < listed.len() implies (#[trigger] listed[i]).index()
            < (#[trigger] listed[j]).index() by {
            assert(listed[i] == earlier[i]);
            if j < earlier.len() {
                assert(listed[j] == earlier[j]);
            }
        }
    } else {
        assert(listed.len() == 0);
    }
}

impl Board {
    /// Whether every square strictly between two squares of one line is
    /// empty.
    fn path_is_clear(&self, from: Square, to: Square) -> (clear: bool)
        requires
            from.valid(),
            to.valid(),
            straight(from, to) || diagonal(from, to),
        ensures
            clear == path_clear(self@, from, to),
    {
        let file_step: i8 = if to.file > from.file {
            1
        } else if to.file < from.file {
            -1
        } else {
            0
        };
        let rank_step: i8 = if to.rank > from.rank {
            1
        } else if to.rank < from.rank {
            -1
        } else {
            0
        };
        let files: i8 = if to.file > from.file {
            (to.file - from.file) as i8
        } else {
            (from.file - to.file) as i8
        };
        let ranks: i8 = if to.rank > from.rank {
            (to.rank - from.rank) as i8
        } else {
            (from.rank - to.rank) as i8
        };
        let length: i8 = if files >= ranks {
            files
        } else {
            ranks
        };
        let mut steps: i8 = 1;
        let mut file: i8 = from.file as i8 + file_step;
        let mut rank: i8 = from.rank as i8 + rank_step;
        while steps < length
            invariant
                from.valid(),
                to.valid(),
                straight(from, to) || diagonal(from, to),
                length == span(from, to),
                file_step == direction(to.file - from.file),
                rank_step == direction(to.rank - from.rank),
                1 <= steps,
                steps <= length || length == 0,
                file == shift(from.file as int, file_step as int, steps as int),
                rank == shift(from.rank as int, rank_step as int, steps as int),
                forall|k: int| 0 < k < steps ==> (#[trigger] self@[line_index(from, to, k)]) is None,
            decreases length - steps,
        {
            let here = self.cells[file as usize * 8 + rank as usize];
            assert(file as usize * 8 + rank as usize == line_index(from, to, steps as int));
            if here.is_some() {
                return false;
            }
            steps = steps + 1;
            file = file + file_step;
            rank = rank + rank_step;
        }
        true
    }

    /// Whether a pawn of the given colour on `from` may go to `to`.
    fn is_pawn_target(
        &self,
        en_passant: Option<Square>,
        color: Color,
        from: Square,
        to: Square,
    ) -> (yes: bool)
        requires
            from.valid(),
            to.valid(),
        ensures
            yes == (pawn_advance(self@, color, from, to) || pawn_capture(
                self@,
                en_passant,
                color,
                from,
                to,
            )),
    {
        let forward: i8 = match color {
            Color::White => 1,
            Color::Black => -1,
        };
        let file_delta: i8 = to.file as i8 - from.file as i8;
        let rank_delta: i8 = to.rank as i8 - from.rank as i8;
        let target = self.get(to);
        if file_delta == 0 {
            if target.is_some() {
                false
            } else if rank_delta == forward {
                true
            } else if from.rank == color.pawn_rank() && rank_delta == 2 * forward {
                let middle = self.cells[from.file as usize * 8 + (from.rank as i8
                    + forward) as usize];
                middle.is_none()
            } else {
                false
            }
        } else if (file_delta == 1 || file_delta == -1) && rank_delta == forward {
            let takes = match target {
                Some(piece) => piece.color != color,
                None => false,
            };
            let passing = match en_passant {
                Some(square) => square.file == to.file && square.rank == to.rank,
                None => false,
            };
            takes || passing
        } else {
            false
        }
    }

    /// Whether the piece on `from` may go to `to` by its own way of moving.
    /// `false` if a square lies off the board or `from` is empty.
    pub fn is_raw_target(&self, from: Square, to: Square, en_passant: Option<Square>) -> (yes:
        bool)
        ensures
            yes == raw_target(self@, en_passant, from, to),
    {
        if !(from.is_valid() && to.is_valid()) {
            return false;
        }
        let piece = match self.get(from) {
            Some(piece) => piece,
            None => { return false; },
        };
        match self.get(to) {
            Some(other) => {
                if other.color == piece.color {
                    return false;
                }
            },
            None => {},
        }
        let files: u8 = if to.file > from.file {
            to.file - from.file
        } else {
            from.file - to.file
        };
        let ranks: u8 = if to.rank > from.rank {
            to.rank - from.rank
        } else {
            from.rank - to.rank
        };
        let on_straight = (files == 0) != (ranks == 0);
        let on_diagonal = files != 0 && files == ranks;
        match piece.piecetype {
            PieceType::King => files <= 1 && ranks <= 1 && (files == 1 || ranks == 1),
            PieceType::Knight => (files == 1 && ranks == 2) || (files == 2 && ranks == 1),
            PieceType::Rook => on_straight && self.path_is_clear(from, to),
            PieceType::Bishop => on_diagonal && self.path_is_clear(from, to),
            PieceType::Queen => (on_straight || on_diagonal) && self.path_is_clear(from, to),
            PieceType::Pawn => self.is_pawn_target(en_passant, piece.color, from, to),
        }
    }

    /// The squares to which the piece on `square` may go by its own way of
    /// moving, in ascending order (by file, then by rank); none if the square
    /// is empty.  `InvalidSquare` for a square off the board.
    pub fn raw_targets(&self, from: Square, en_passant: Option<Square>) -> (targets: Result<
        Vec<Square>,
        MoveError,
    >)
        ensures
            from.valid() ==> (targets matches Ok(list) && list@ == spec_raw_targets(
                self@,
                en_passant,
                from,
            )),
            !from.valid() ==> targets matches Err(MoveError::InvalidSquare),
    {
        if !from.is_valid() {
            return Err(MoveError::InvalidSquare);
        }
        let ghost wanted = raw_target_of(self@, en_passant, from);
        let mut list: Vec<Square> = Vec::new();
        let mut index: u8 = 0;
        while index < 64
            invariant
                index <= 64,
                wanted == raw_target_of(self@, en_passant, from),
                list@ == squares_where(wanted, index as int),
            decreases 64 - index,
        {
            let to = Square { file: index / 8, rank: index % 8 };
            assert(to == square_at(index as int));
            if self.is_raw_target(from, to, en_passant) {
                list.push(to);
            }
            index = index + 1;
        }
        Ok(list)
    }
}

} // verus!
