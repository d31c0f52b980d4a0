//! A two-player chess rules engine.
//!
//! The crate owns the board, generates legal moves, detects check, checkmate
//! and stalemate, and applies moves (castling, en passant and promotion
//! included).  Every function is verified against a mathematical model of the
//! game: a position is a sequence of sixty-four optional pieces together with
//! the side to move, the castling rights, the en-passant target and the
//! promotion choice.
//!
//! * `square`, `piece`, `status`, `castling`: the small values.
//! * `board`: the sixty-four cells.
//! * `targets`: where a piece may go by its own way of moving.
//! * `attack`: attacked squares and check.
//! * `rules`: the model of a position, of a move and of legality.
//! * `position`: a position as data, with the rules applied to it.
//! * `soundness`: what holds of every position that play can reach.
//! * `game`: the game, changed only by accepted moves.
//! * `laws`: what follows for every game.

pub mod attack;
pub mod board;
pub mod castling;
pub mod game;
pub mod laws;

pub mod piece;
pub mod position;
pub mod rules;
pub mod soundness;
pub mod square;
pub mod status;
pub mod targets;

pub use board::Board;
pub use castling::CastlingRights;
pub use game::{legal_moves, Game};
pub use piece::{Color, Piece, PieceType};
pub use position::Position;
pub use square::{pos_to_string, Square};
pub use status::{GameStatus, MoveError};
