//! The game: a position, its status and the number of moves played, changed
//! only by `make_move` and `set_promotion`.

use vstd::prelude::*;
use crate::board::{holds_color, Board};
use crate::castling::CastlingRights;
use crate::piece::{Color, PieceType};
use crate::position::Position;
use crate::rules::{lemma_status_ignores_promotion, PositionView};
use crate::soundness::{
    lemma_initial_position_sound,
    lemma_initial_status,
    lemma_legal_move_keeps_soundness,
};
use crate::square::Square;
use crate::status::{GameStatus, MoveError};

verus! {

/// The mathematical model of a game.
pub struct GameView {
    /// What the rules need to know.
    pub position: PositionView,
    /// The recorded status.
    pub state: GameStatus,
    /// The number of moves played, which stops counting at `u64::MAX`.
    pub moves_played: u64,
}

impl GameView {
    /// What holds of every game: the position is sound, and the recorded
    /// status is the status of the position.
    pub open spec fn wf(self) -> bool {
        &&& self.position.sound()
        &&& self.state == self.position.status()
    }

    /// The game before any move.
    pub open spec fn initial() -> GameView {
        GameView {
            position: PositionView::initial(),
            state: GameStatus::Ongoing,
            moves_played: 0,
        }
    }

    /// The answer to a request to move from `from` to `to`.
    ///
    /// In this order: `InvalidSquare` if a square lies off the board,
    /// `GameAlreadyTerminal` if the game is over, `NoPieceOrWrongSide` if
    /// `from` holds no piece of the side to move, `IllegalDestination` if the
    /// move is not legal; otherwise the status of the position after the
    /// move.
    pub open spec fn outcome(self, from: Square, to: Square) -> Result<GameStatus, MoveError> {
        if !from.valid() || !to.valid() {
            Err(MoveError::InvalidSquare)
        } else if self.state.spec_is_terminal() {
            Err(MoveError::GameAlreadyTerminal)
        } else if !holds_color(self.position.grid, from, self.position.turn) {
            Err(MoveError::NoPieceOrWrongSide)
        } else if !self.position.legal(from, to) {
            Err(MoveError::IllegalDestination)
        } else {
            Ok(self.position.after(from, to).status())
        }
    }

    /// The game after the move from `from` to `to` has been played.
    pub open spec fn after_move(self, from: Square, to: Square) -> GameView {
        GameView {
            position: self.position.after(from, to),
            state: self.position.after(from, to).status(),
            moves_played: if self.moves_played < u64::MAX {
                (self.moves_played + 1) as u64
            } else {
                self.moves_played
            },
        }
    }

    /// The game after a request to move: changed only if the move is
    /// accepted and `commit` is set.
    pub open spec fn step(self, from: Square, to: Square, commit: bool) -> GameView {
        if commit && self.outcome(from, to) is Ok {
            self.after_move(from, to)
        } else {
            self
        }
    }

    /// The legal destinations of the piece on `from`, in ascending order (by
    /// file, then by rank); none if the game is over.
    pub open spec fn legal_moves(self, from: Square) -> Seq<Square> {
        if self.state.spec_is_terminal() {
            Seq::empty()
        } else {
            self.position.legal_targets(from)
        }
    }

    /// The answer to a request for the legal destinations of the piece on
    /// `square`.
    ///
    /// In this order: `InvalidSquare` if the square lies off the board,
    /// `GameAlreadyTerminal` if the game is over, `NoPieceOrWrongSide` if the
    /// square holds no piece of the side to move; otherwise the legal
    /// destinations.
    pub open spec fn possible_moves(self, square: Square) -> Result<Seq<Square>, MoveError> {
        if !square.valid() {
            Err(MoveError::InvalidSquare)
        } else if self.state.spec_is_terminal() {
            Err(MoveError::GameAlreadyTerminal)
        } else if !holds_color(self.position.grid, square, self.position.turn) {
            Err(MoveError::NoPieceOrWrongSide)
        } else {
            Ok(self.legal_moves(square))
        }
    }

    /// The game with another promotion choice; a king or a pawn is no
    /// choice and leaves the game as it is.
    pub open spec fn with_promotion(self, kind: PieceType) -> GameView {
        if kind.spec_promotable() {
            GameView { position: self.position.with_promotion(kind), ..self }
        } else {
            self
        }
    }
}

/// A game of chess.  Every value is well formed: see `GameView::wf`.
#[derive(Clone, Copy, Debug, PartialEq, Eq)]
pub struct Game {
    position: Position,
    state: GameStatus,
    moves_played: u64,
}

impl View for Game {
    type V = GameView;

    closed spec fn view(&self) -> GameView {
        GameView { position: self.position@, state: self.state, moves_played: self.moves_played }
    }
}

impl Game {
    /// Every game is well formed, from `new` on and after every change.
    #[verifier::type_invariant]
    spec fn well_formed(self) -> bool {
        self@.wf()
    }

    /// A new game: the starting position, White to move, every castling
    /// right, no en-passant target, promotion to a queen, no move played.
    pub fn new() -> (game: Game)
        ensures
            game@ == GameView::initial(),
            game@.wf(),
    {
        proof {
            lemma_initial_position_sound();
            lemma_initial_status();
        }
        Game { position: Position::initial(), state: GameStatus::Ongoing, moves_played: 0 }
    }

    /// The position.
    pub fn position(&self) -> (position: Position)
        ensures
            position@ == self@.position,
            self@.wf(),
    {
        proof {
            use_type_invariant(self);
        }
        self.position
    }

    /// The board.
    pub fn board(&self) -> (board: Board)
        ensures
            board@ == self@.position.grid,
    {
        self.position.board
    }

    /// The side to move.
    pub fn color(&self) -> (color: Color)
        ensures
            color == self@.position.turn,
    {
        self.position.turn
    }

    /// The recorded status, which is the status of the position.
    pub fn state(&self) -> (state: GameStatus)
        ensures
            state == self@.state,
            state == self@.position.status(),
            self@.wf(),
    {
        proof {
            use_type_invariant(self);
        }
        self.state
    }

    /// The castling rights.
    pub fn castling(&self) -> (rights: CastlingRights)
        ensures
            rights == self@.position.castling,
    {
        self.position.castling
    }

    /// The en-passant target.
    pub fn en_passant(&self) -> (target: Option<Square>)
        ensures
            target == self@.position.en_passant,
    {
        self.position.en_passant
    }

    /// The kind of piece that the next promoted pawn becomes.
    pub fn promotion(&self) -> (kind: PieceType)
        ensures
            kind == self@.position.promotion,
    {
        self.position.promotion
    }

    /// The number of moves played.
    pub fn moves_played(&self) -> (count: u64)
        ensures
            count == self@.moves_played,
    {
        self.moves_played
    }

    /// Asks for the move of the piece on `from` to `to`.
    ///
    /// The request is refused, and nothing changes, if a square lies off the
    /// board, the game is over, `from` holds no piece of the side to move, or
    /// the move is not legal.  Otherwise the answer is the status of the
    /// game after the move.  With `commit` the move is then played: the board
    /// changes, a pawn that reaches the far rank becomes a piece of the
    /// chosen kind and the choice returns to the queen, castling rights and
    /// en-passant target are brought up to date, the other side is to move
    /// and the new status is recorded.  Without `commit` the game stays as it
    /// was.
    pub fn make_move(&mut self, from: Square, to: Square, commit: bool) -> (result: Result<
        GameStatus,
        MoveError,
    >)
        ensures
            old(self)@.wf(),
            final(self)@.wf(),
            result == old(self)@.outcome(from, to),
            final(self)@ == old(self)@.step(from, to, commit),
            result is Err || !commit ==> *final(self) == *old(self),
    {
        proof {
            use_type_invariant(&*self);
        }
        if !(from.is_valid() && to.is_valid()) {
            return Err(MoveError::InvalidSquare);
        }
        if self.state.is_terminal() {
            return Err(MoveError::GameAlreadyTerminal);
        }
        let mine = match self.position.board.get(from) {
            Some(piece) => piece.color == self.position.turn,
            None => false,
        };
        if !mine {
            return Err(MoveError::NoPieceOrWrongSide);
        }
        if !self.position.is_legal_move(from, to) {
            return Err(MoveError::IllegalDestination);
        }
        proof {
            lemma_legal_move_keeps_soundness(self@.position, from, to);
        }
        let position = self.position.moved(from, to);
        let state = position.status();
        if commit {
            let moves_played: u64 = if self.moves_played < u64::MAX {
                self.moves_played + 1
            } else {
                self.moves_played
            };
            *self = Game { position, state, moves_played };
        }
        Ok(state)
    }

    /// Asks for a move between two squares given by their names, such as
    /// `E2` and `E4`.  A text that names no square of the board is refused
    /// with `InvalidSquare`; otherwise this is `make_move` on the squares
    /// named.
    pub fn make_move_named(&mut self, from: &str, to: &str, commit: bool) -> (result: Result<
        GameStatus,
        MoveError,
    >)
        ensures
            old(self)@.wf(),
            final(self)@.wf(),
            match (Square::spec_from_name(from@), Square::spec_from_name(to@)) {
                (Some(origin), Some(target)) => result == old(self)@.outcome(origin, target)
                    && final(self)@ == old(self)@.step(origin, target, commit),
                _ => result == Err::<GameStatus, MoveError>(MoveError::InvalidSquare)
                    && *final(self) == *old(self),
            },
            result is Err || !commit ==> *final(self) == *old(self),
    {
        proof {
            use_type_invariant(&*self);
        }
        match (Square::from_notation(from), Square::from_notation(to)) {
            (Some(origin), Some(target)) => self.make_move(origin, target, commit),
            _ => Err(MoveError::InvalidSquare),
        }
    }

    /// Asks for the legal destinations of the piece on `square`, in
    /// ascending order (by file, then by rank).
    ///
    /// The request is refused if the square lies off the board, the game is
    /// over, or the square holds no piece of the side to move.  The game is
    /// not changed, whatever `dry_run` says.
    #[allow(unused_variables)]
    pub fn get_possible_moves(&self, square: Square, dry_run: bool) -> (result: Result<
        Vec<Square>,
        MoveError,
    >)
        ensures
            match self@.possible_moves(square) {
                Ok(moves) => result matches Ok(list) && list@ == moves,
                Err(reason) => result == Err::<Vec<Square>, MoveError>(reason),
            },
    {
        if !square.is_valid() {
            return Err(MoveError::InvalidSquare);
        }
        if self.state.is_terminal() {
            return Err(MoveError::GameAlreadyTerminal);
        }
        let mine = match self.position.board.get(square) {
            Some(piece) => piece.color == self.position.turn,
            None => false,
        };
        if !mine {
            return Err(MoveError::NoPieceOrWrongSide);
        }
        Ok(legal_moves(self, square))
    }

    /// Chooses the kind of piece that the next promoted pawn becomes.  A
    /// king or a pawn is no choice: the earlier choice then stands.
    pub fn set_promotion(&mut self, kind: PieceType)
        ensures
            final(self)@ == old(self)@.with_promotion(kind),
            final(self)@.wf(),
    {
        proof {
            use_type_invariant(&*self);
        }
        if kind.promotable() {
            proof {
                lemma_status_ignores_promotion(self@.position, kind);
            }
            self.position.promotion = kind;
        }
    }
}

/// The legal destinations of the piece on `square`, in ascending order (by
/// file, then by rank).  There is none if the square lies off the board, is
/// empty or holds a piece of the side that is not to move, or if the game is
/// over.
pub fn legal_moves(game: &Game, square: Square) -> (moves: Vec<Square>)
    ensures
        moves@ == game@.legal_moves(square),
{
    if game.state.is_terminal() {
        Vec::new()
    } else {
        game.position.legal_targets(square)
    }
}

} // verus!
