//! Attacks on a square and check.

use vstd::prelude::*;
use crate::board::{cell, holds_color, Board};
use crate::piece::{Color, Piece, PieceType};
use crate::square::Square;
use crate::targets::{diagonal, line_index, path_clear, raw_target, span, straight};

verus! {

/// Whether some piece of colour `by` may go to `target` by its own way of
/// moving.  No en-passant target is taken into account: it is an empty
/// square, and a capture onto it threatens no piece that stands there.
pub open spec fn attacked(grid: Seq<Option<Piece>>, target: Square, by: Color) -> bool {
    exists|from: Square| holds_color(grid, from, by) && #[trigger] raw_target(grid, None, from, target)
}

/// Whether a king of the given colour stands on a square that the other side
/// attacks.
pub open spec fn in_check(grid: Seq<Option<Piece>>, color: Color) -> bool {
    exists|king: Square|
        king.valid() && cell(grid, king) == Some(Piece { piecetype: PieceType::King, color })
            && #[trigger] attacked(grid, king, color.spec_opposite())
}

/// On an occupied square the en-passant target makes no difference to what
/// may go there: a raw target with some en-passant target is a raw target
/// without one.
pub proof fn lemma_occupied_target_ignores_en_passant(
    grid: Seq<Option<Piece>>,
    en_passant: Option<Square>,
    from: Square,
    to: Square,
)
    requires
        cell(grid, to) is Some,
    ensures
        raw_target(grid, en_passant, from, to) == raw_target(grid, None, from, to),
{
}

/// Two boards that agree on every square but one, on which both hold a
/// piece of the given colour and neither holds a king.
pub open spec fn differ_in_kind(
    first: Seq<Option<Piece>>,
    second: Seq<Option<Piece>>,
    place: int,
    color: Color,
) -> bool {
    &&& first.len() == 64
    &&& second.len() == 64
    &&& 0 <= place < 64
    &&& forall|i: int| 0 <= i < 64 && i != place ==> first[i] == second[i]
    &&& first[place] matches Some(piece) && piece.color == color && piece.piecetype
        != PieceType::King
    &&& second[place] matches Some(piece) && piece.color == color && piece.piecetype
        != PieceType::King
}

/// What a piece may reach does not depend on the kind of another piece.
pub proof fn lemma_raw_target_ignores_kind(
    first: Seq<Option<Piece>>,
    second: Seq<Option<Piece>>,
    place: int,
    color: Color,
    en_passant: Option<Square>,
    from: Square,
    to: Square,
)
    requires
        differ_in_kind(first, second, place, color),
        from.index() != place,
    ensures
        raw_target(first, en_passant, from, to) == raw_target(second, en_passant, from, to),
{
    if from.valid() && to.valid() {
        assert(first[from.index()] == second[from.index()]);
        assert(first[to.index()] is None == second[to.index()] is None);
        if straight(from, to) || diagonal(from, to) {
            assert forall|steps: int| 0 < steps < span(from, to) implies (
            #[trigger] first[line_index(from, to, steps)] is None) == (second[line_index(
                from,
                to,
                steps,
            )] is None) by {
                let at = line_index(from, to, steps);
                assert(0 <= at < 64);
            }
            assert(path_clear(first, from, to) == path_clear(second, from, to));
        }
        match first[from.index()] {
            Some(piece) => {
                if piece.piecetype == PieceType::Pawn {
                    let middle = 8 * from.file + from.rank + piece.color.spec_forward();
                    if 0 <= middle < 64 {
                        assert(first[middle] is None == second[middle] is None);
                    }
                }
            },
            None => {},
        }
    }
}

/// Whether a side is in check does not depend on the kind of one of its
/// own pieces other than the king.
pub proof fn lemma_check_ignores_kind(
    first: Seq<Option<Piece>>,
    second: Seq<Option<Piece>>,
    place: int,
    color: Color,
)
    requires
        differ_in_kind(first, second, place, color),
    ensures
        in_check(first, color) == in_check(second, color),
{
    let enemy = color.spec_opposite();
    assert forall|king: Square| king.valid() implies attacked(first, king, enemy) == attacked(
        second,
        king,
        enemy,
    ) by {
        assert forall|from: Square| #![auto] (holds_color(first, from, enemy) && raw_target(
            first,
            None,
            from,
            king,
        )) == (holds_color(second, from, enemy) && raw_target(second, None, from, king)) by {
            if from.valid() {
                if from.index() != place {
                    lemma_raw_target_ignores_kind(first, second, place, color, None, from, king);
                }
            }
        }
        if attacked(first, king, enemy) {
            let from = choose|from: Square|
                holds_color(first, from, enemy) && #[trigger] raw_target(first, None, from, king);
            assert(holds_color(second, from, enemy) && raw_target(second, None, from, king));
        }
        if attacked(second, king, enemy) {
            let from = choose|from: Square|
                holds_color(second, from, enemy) && #[trigger] raw_target(second, None, from, king);
            assert(holds_color(first, from, enemy) && raw_target(first, None, from, king));
        }
    }
    let royal = Some(Piece { piecetype: PieceType::King, color });
    if in_check(first, color) {
        let king = choose|king: Square|
            king.valid() && cell(first, king) == royal && #[trigger] attacked(first, king, enemy);
        assert(king.index() != place);
        assert(cell(second, king) == royal && attacked(second, king, enemy));
    }
    if in_check(second, color) {
        let king = choose|king: Square|
            king.valid() && cell(second, king) == royal && #[trigger] attacked(second, king, enemy);
        assert(king.index() != place);
        assert(cell(first, king) == royal && attacked(first, king, enemy));
    }
}

impl Board {
    /// Whether some piece of colour `by` may go to `target` by its own way
    /// of moving.
    pub fn is_attacked(&self, target: Square, by: Color) -> (yes: bool)
        ensures
            yes == attacked(self@, target, by),
    {
        let mut index: u8 = 0;
        while index < 64
            invariant
                index <= 64,
                forall|from: Square|
                    from.valid() && from.index() < index ==> !(holds_color(self@, from, by)
                        && #[trigger] raw_target(self@, None, from, target)),
            decreases 64 - index,
        {
            let from = Square { file: index / 8, rank: index % 8 };
            let mine = match self.get(from) {
                Some(piece) => piece.color == by,
                None => false,
            };
            if mine && self.is_raw_target(from, target, None) {
                return true;
            }
            assert forall|other: Square|
                other.valid() && other.index() < index + 1 implies !(holds_color(self@, other, by)
                && #[trigger] raw_target(self@, None, other, target)) by {
                if other.index() == index {
                    assert(other == from);
                }
            }
            index = index + 1;
        }
        false
    }

    /// Whether a king of the given colour stands on an attacked square.
    pub fn is_in_check(&self, color: Color) -> (yes: bool)
        ensures
            yes == in_check(self@, color),
    {
        let mut index: u8 = 0;
        while index < 64
            invariant
                index <= 64,
                forall|king: Square|
                    king.valid() && king.index() < index ==> !(cell(self@, king) == Some(
                        Piece { piecetype: PieceType::King, color },
                    ) && #[trigger] attacked(self@, king, color.spec_opposite())),
            decreases 64 - index,
        {
            let king = Square { file: index / 8, rank: index % 8 };
            let is_king = match self.get(king) {
                Some(piece) => piece.color == color && piece.piecetype == PieceType::King,
                None => false,
            };
            if is_king && self.is_attacked(king, color.opposite()) {
                return true;
            }
            assert forall|other: Square|
                other.valid() && other.index() < index + 1 implies !(cell(self@, other) == Some(
                Piece { piecetype: PieceType::King, color },
            ) && #[trigger] attacked(self@, other, color.spec_opposite())) by {
                if other.index() == index {
                    assert(other == king);
                }
            }
            index = index + 1;
        }
        false
    }
}

} // verus!
