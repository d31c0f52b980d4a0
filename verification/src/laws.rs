//! Laws of the game, proved of the model that the contracts of `Game` speak
//! of.

use vstd::prelude::*;
use crate::attack::{attacked, in_check, lemma_occupied_target_ignores_en_passant};
use crate::board::{cell, holds_color};
use crate::game::GameView;
use crate::piece::{Color, Piece, PieceType};
use crate::rules::{is_double_advance, is_promotion, legal_target_of, PositionView};
use crate::soundness::{is_king_of, lemma_cell_after_legal_move, lemma_legal_move_keeps_soundness};
use crate::square::Square;
use crate::status::{GameStatus, MoveError};
use crate::targets::{
    lemma_squares_where_ascending,
    lemma_squares_where_contains,
    raw_target,
    raw_target_of,
    spec_raw_targets,
};

verus! {

impl GameView {
    /// The game after the same request has been made `count` times.
    pub open spec fn step_times(self, from: Square, to: Square, commit: bool, count: nat) -> GameView
        decreases count,
    {
        if count == 0 {
            self
        } else {
            self.step(from, to, commit).step_times(from, to, commit, (count - 1) as nat)
        }
    }
}

impl PositionView {
    /// Whether no piece has a legal destination.
    pub open spec fn no_legal_targets(self) -> bool {
        forall|from: Square| (#[trigger] self.legal_targets(from)).len() == 0
    }

    /// Whether some piece of the side that is not to move may go, by its own
    /// way of moving, to the square of the king of the side to move: that
    /// square is among the raw targets of the piece.
    pub open spec fn king_is_raw_target(self) -> bool {
        exists|from: Square, king: Square|
            king.valid() && is_king_of(self.grid, king, self.turn) && holds_color(
                self.grid,
                from,
                self.turn.spec_opposite(),
            ) && #[trigger] spec_raw_targets(self.grid, self.en_passant, from).contains(king)
    }
}

/// A move is legal exactly if it is listed among the legal destinations of
/// its origin.
pub proof fn lemma_legal_targets_contain(position: PositionView, from: Square, to: Square)
    ensures
        position.legal_targets(from).contains(to) <==> position.legal(from, to),
{
    lemma_squares_where_contains(legal_target_of(position, from), 64, to);
}

/// No piece has a legal destination exactly if the side to move has no
/// legal move.
pub proof fn lemma_no_legal_targets(position: PositionView)
    ensures
        position.no_legal_targets() <==> !position.has_legal_move(),
{
    if position.has_legal_move() {
        let (from, to) = choose|from: Square, to: Square| #[trigger] position.legal(from, to);
        lemma_legal_targets_contain(position, from, to);
        assert(position.legal_targets(from).len() != 0);
    }
    if !position.no_legal_targets() {
        let from = choose|from: Square| (#[trigger] position.legal_targets(from)).len() != 0;
        let to = position.legal_targets(from)[0];
        assert(position.legal_targets(from).contains(to));
        lemma_legal_targets_contain(position, from, to);
    }
}

/// The king of the side to move stands on a raw target of an enemy piece
/// exactly if that side is in check.
pub proof fn lemma_king_is_raw_target(position: PositionView)
    ensures
        position.king_is_raw_target() <==> in_check(position.grid, position.turn),
{
    let grid = position.grid;
    let enemy = position.turn.spec_opposite();
    if position.king_is_raw_target() {
        let (from, king) = choose|from: Square, king: Square|
            king.valid() && is_king_of(grid, king, position.turn) && holds_color(grid, from, enemy)
                && #[trigger] spec_raw_targets(grid, position.en_passant, from).contains(king);
        lemma_squares_where_contains(raw_target_of(grid, position.en_passant, from), 64, king);
        lemma_occupied_target_ignores_en_passant(grid, position.en_passant, from, king);
        assert(raw_target(grid, None, from, king));
        assert(attacked(grid, king, enemy));
    }
    if in_check(grid, position.turn) {
        let king = choose|king: Square|
            king.valid() && is_king_of(grid, king, position.turn) && #[trigger] attacked(
                grid,
                king,
                enemy,
            );
        let from = choose|from: Square|
            holds_color(grid, from, enemy) && #[trigger] raw_target(grid, None, from, king);
        lemma_occupied_target_ignores_en_passant(grid, position.en_passant, from, king);
        lemma_squares_where_contains(raw_target_of(grid, position.en_passant, from), 64, king);
        assert(spec_raw_targets(grid, position.en_passant, from).contains(king));
    }
}

/// Turn alternation: after an accepted move the other side is to move;
/// after a refused move, and after a move that was only tried, the same side
/// is.
pub proof fn law_turn_alternation(game: GameView, from: Square, to: Square, commit: bool)
    ensures
        game.outcome(from, to) is Ok && commit ==> game.step(from, to, commit).position.turn
            == game.position.turn.spec_opposite(),
        game.outcome(from, to) is Err || !commit ==> game.step(from, to, commit).position.turn
            == game.position.turn,
{
}

/// A move is accepted exactly if its destination is listed among the legal
/// moves of its origin.
pub proof fn law_accepted_moves_are_the_listed_moves(game: GameView, from: Square, to: Square)
    ensures
        game.outcome(from, to) is Ok <==> game.legal_moves(from).contains(to),
{
    lemma_legal_targets_contain(game.position, from, to);
}

/// Closure under legality: a move to a listed destination is accepted, and
/// after it the mover's king is not attacked.
pub proof fn law_legal_moves_keep_the_king_safe(game: GameView, from: Square, to: Square)
    requires
        game.legal_moves(from).contains(to),
    ensures
        game.outcome(from, to) is Ok,
        !in_check(game.step(from, to, true).position.grid, game.position.turn),
{
    lemma_legal_targets_contain(game.position, from, to);
}

/// Check detection: the recorded status is check or checkmate of the side
/// to move exactly if that side's king stands on a raw target of an enemy
/// piece; it never names the other side.
pub proof fn law_check_detection(game: GameView)
    requires
        game.wf(),
    ensures
        (game.state == GameStatus::Check(game.position.turn) || game.state
            == GameStatus::Checkmate(game.position.turn))
            <==> game.position.king_is_raw_target(),
        game.state matches GameStatus::Check(color) ==> color == game.position.turn,
        game.state matches GameStatus::Checkmate(color) ==> color == game.position.turn,
{
    lemma_king_is_raw_target(game.position);
}

/// Checkmate and stalemate: the status is checkmate exactly if the side to
/// move is in check and no piece has a legal destination, and stalemate
/// exactly if it is not in check and no piece has a legal destination.  No
/// game is recorded as drawn.
pub proof fn law_checkmate_and_stalemate(game: GameView)
    requires
        game.wf(),
    ensures
        game.state == GameStatus::Checkmate(game.position.turn) <==> (
        game.position.king_is_raw_target() && game.position.no_legal_targets()),
        game.state == GameStatus::Stalemate <==> (!game.position.king_is_raw_target()
            && game.position.no_legal_targets()),
        game.position.no_legal_targets() <==> forall|from: Square|
            (#[trigger] game.legal_moves(from)).len() == 0,
        !(game.state is Draw),
{
    lemma_king_is_raw_target(game.position);
    lemma_no_legal_targets(game.position);
    if game.position.no_legal_targets() {
        assert forall|from: Square| (#[trigger] game.legal_moves(from)).len() == 0 by {
            assert(game.position.legal_targets(from).len() == 0);
        }
    }
    if forall|from: Square| (#[trigger] game.legal_moves(from)).len() == 0 {
        if !game.state.spec_is_terminal() {
            assert forall|from: Square| (#[trigger] game.position.legal_targets(from)).len()
                == 0 by {
                assert(game.legal_moves(from).len() == 0);
            }
        }
    }
}

/// En passant is offered once: after an accepted move there is a target
/// exactly if the move was a pawn's advance of two squares, the target is
/// then the square that the pawn skipped, any adjacent enemy pawn may capture
/// onto it, and a target that stood before the move stands no longer.
pub proof fn law_en_passant_one_shot(game: GameView, from: Square, to: Square)
    requires
        game.wf(),
        game.outcome(from, to) is Ok,
    ensures
        game.step(from, to, true).position.en_passant is Some <==> is_double_advance(
            game.position.grid,
            from,
            to,
        ),
        is_double_advance(game.position.grid, from, to) ==> game.step(
            from,
            to,
            true,
        ).position.en_passant == Some(
            Square { file: from.file, rank: ((from.rank + to.rank) / 2) as u8 },
        ),
        game.position.en_passant is Some ==> game.step(from, to, true).position.en_passant
            != game.position.en_passant,
        forall|pawn: Square|
            #![trigger cell(game.step(from, to, true).position.grid, pawn)]
            is_double_advance(game.position.grid, from, to) && pawn.valid() && pawn.rank == to.rank
                && (pawn.file == to.file + 1 || pawn.file + 1 == to.file) && cell(
                game.step(from, to, true).position.grid,
                pawn,
            ) == Some(
                Piece { piecetype: PieceType::Pawn, color: game.position.turn.spec_opposite() },
            ) ==> raw_target(
                game.step(from, to, true).position.grid,
                game.step(from, to, true).position.en_passant,
                pawn,
                Square { file: from.file, rank: ((from.rank + to.rank) / 2) as u8 },
            ),
{
    let next = game.step(from, to, true).position;
    lemma_legal_move_keeps_soundness(game.position, from, to);
    assert(next == game.position.after(from, to));
    assert(next.en_passant_sound());
    if is_double_advance(game.position.grid, from, to) {
        let target = Square { file: from.file, rank: ((from.rank + to.rank) / 2) as u8 };
        assert(next.en_passant == Some(target));
        assert forall|pawn: Square|
            pawn.valid() && pawn.rank == to.rank && (pawn.file == to.file + 1 || pawn.file + 1
                == to.file) && cell(next.grid, pawn) == Some(
                Piece { piecetype: PieceType::Pawn, color: game.position.turn.spec_opposite() },
            ) implies raw_target(next.grid, next.en_passant, pawn, target) by {
            lemma_cell_after_legal_move(game.position, from, to, to);
        }
    }
}

/// Promotion: a pawn that reaches the far rank becomes a piece of the
/// chosen kind and of its own colour, and the choice returns to the queen;
/// any other move leaves the choice as it was.  The choice is the queen at the
/// start, and a queen, rook, bishop or knight once chosen.
pub proof fn law_promotion(game: GameView, from: Square, to: Square, kind: PieceType)
    requires
        game.wf(),
        game.outcome(from, to) is Ok,
    ensures
        is_promotion(game.position.grid, from, to) ==> cell(
            game.step(from, to, true).position.grid,
            to,
        ) == Some(Piece { piecetype: game.position.promotion, color: game.position.turn }),
        is_promotion(game.position.grid, from, to) ==> game.step(
            from,
            to,
            true,
        ).position.promotion == PieceType::Queen,
        !is_promotion(game.position.grid, from, to) ==> game.step(
            from,
            to,
            true,
        ).position.promotion == game.position.promotion,
        GameView::initial().position.promotion == PieceType::Queen,
        kind.spec_promotable() ==> game.with_promotion(kind).position.promotion == kind,
        !kind.spec_promotable() ==> game.with_promotion(kind) == game,
{
    lemma_cell_after_legal_move(game.position, from, to, to);
}

/// Rejection is idempotent: a refused request leaves the game as it was, so
/// the same request, made any number of times, is refused for the same
/// reason and the game stays as it was.
pub proof fn law_rejection_is_idempotent(
    game: GameView,
    from: Square,
    to: Square,
    commit: bool,
    count: nat,
)
    requires
        game.outcome(from, to) is Err,
    ensures
        game.step_times(from, to, commit, count) == game,
        game.step_times(from, to, commit, count).outcome(from, to) == game.outcome(from, to),
    decreases count,
{
    if count > 0 {
        law_rejection_is_idempotent(game, from, to, commit, (count - 1) as nat);
    }
}

/// The legal moves of a piece are listed in ascending order (by file, then
/// by rank): each is a square of the board, and none is listed twice.
pub proof fn law_listing_is_ascending(game: GameView, from: Square)
    ensures
        forall|i: int, j: int|
            0 <= i < j < game.legal_moves(from).len() ==> (#[trigger] game.legal_moves(
                from,
            )[i]).index() < (#[trigger] game.legal_moves(from)[j]).index(),
        forall|i: int|
            0 <= i < game.legal_moves(from).len() ==> (#[trigger] game.legal_moves(
                from,
            )[i]).valid(),
{
    let wanted = legal_target_of(game.position, from);
    lemma_squares_where_ascending(wanted, 64);
    assert forall|i: int| 0 <= i < game.legal_moves(from).len() implies (
    #[trigger] game.legal_moves(from)[i]).valid() by {
        let listed = game.legal_moves(from);
        assert(listed.contains(listed[i]));
        lemma_squares_where_contains(wanted, 64, listed[i]);
    }
}

/// A move that is only tried changes nothing, whatever the answer.
pub proof fn law_trial_changes_nothing(game: GameView, from: Square, to: Square)
    ensures
        game.step(from, to, false) == game,
{
}

/// A game that is over accepts no move.
pub proof fn law_no_move_after_the_end(game: GameView, from: Square, to: Square)
    requires
        game.state.spec_is_terminal(),
    ensures
        game.outcome(from, to) is Err,
        from.valid() && to.valid() ==> game.outcome(from, to) == Err::<GameStatus, MoveError>(
            MoveError::GameAlreadyTerminal,
        ),
        game.legal_moves(from).len() == 0,
{
}

/// A castling right that is lost is not regained.
pub proof fn law_castling_rights_only_shrink(
    game: GameView,
    from: Square,
    to: Square,
    color: Color,
    king_side: bool,
)
    ensures
        game.step(from, to, true).position.castling.spec_allows(color, king_side)
            ==> game.position.castling.spec_allows(color, king_side),
{
}

/// Play keeps a game well formed.
pub proof fn law_play_keeps_well_formed(game: GameView, from: Square, to: Square, commit: bool)
    requires
        game.wf(),
    ensures
        game.step(from, to, commit).wf(),
{
    if commit && game.outcome(from, to) is Ok {
        lemma_legal_move_keeps_soundness(game.position, from, to);
    }
}

} // verus!
