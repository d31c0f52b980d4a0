use chess_rules::{
    Board, CastlingRights, Color, GameStatus, MoveError, Piece, PieceType, Position, Square,
};

fn sq(name: &str) -> Square {
    Square::from_notation(name).unwrap()
}

fn no_rights() -> CastlingRights {
    CastlingRights {
        white_king_side: false,
        white_queen_side: false,
        black_king_side: false,
        black_queen_side: false,
    }
}

fn set_up(pieces: &[(&str, PieceType, Color)], turn: Color) -> Position {
    let mut board = Board::empty();
    for (name, piecetype, color) in pieces {
        board.place(sq(name), Some(Piece::new(*piecetype, *color))).unwrap();
    }
    Position { board, turn, castling: no_rights(), en_passant: None, promotion: PieceType::Queen }
}

fn listed(position: &Position, from: &str) -> Vec<String> {
    position.legal_targets(sq(from)).iter().map(|square| square.name().unwrap()).collect()
}

#[test]
fn initial_position_is_ongoing() {
    let position = Position::initial();
    assert_eq!(position.board, Board::standard());
    assert_eq!(position.turn, Color::White);
    assert_eq!(position.castling, CastlingRights::all());
    assert_eq!(position.en_passant, None);
    assert_eq!(position.promotion, PieceType::Queen);
    assert_eq!(position.status(), GameStatus::Ongoing);
    assert!(position.has_legal_move());
}

#[test]
fn castling_rights_answer_by_side() {
    let rights = CastlingRights {
        white_king_side: true,
        white_queen_side: false,
        black_king_side: false,
        black_queen_side: true,
    };
    assert!(rights.allows(Color::White, true));
    assert!(!rights.allows(Color::White, false));
    assert!(!rights.allows(Color::Black, true));
    assert!(rights.allows(Color::Black, false));
    assert!(CastlingRights::all().allows(Color::Black, true));
}

#[test]
fn back_rank_mate() {
    let position = set_up(
        &[
            ("G8", PieceType::King, Color::Black),
            ("F7", PieceType::Pawn, Color::Black),
            ("G7", PieceType::Pawn, Color::Black),
            ("H7", PieceType::Pawn, Color::Black),
            ("A8", PieceType::Rook, Color::White),
            ("E1", PieceType::King, Color::White),
        ],
        Color::Black,
    );
    assert_eq!(position.status(), GameStatus::Checkmate(Color::Black));
    assert!(!position.has_legal_move());
    assert!(listed(&position, "G8").is_empty());
}

#[test]
fn back_rank_check_with_one_escape() {
    let position = set_up(
        &[
            ("G8", PieceType::King, Color::Black),
            ("F7", PieceType::Pawn, Color::Black),
            ("G7", PieceType::Pawn, Color::Black),
            ("H6", PieceType::Pawn, Color::Black),
            ("A8", PieceType::Rook, Color::White),
            ("E1", PieceType::King, Color::White),
        ],
        Color::Black,
    );
    assert_eq!(position.status(), GameStatus::Check(Color::Black));
    assert_eq!(listed(&position, "G8"), vec!["H7"]);
    assert!(listed(&position, "F7").is_empty());
    let blocked = set_up(
        &[
            ("G8", PieceType::King, Color::Black),
            ("F7", PieceType::Pawn, Color::Black),
            ("G7", PieceType::Pawn, Color::Black),
            ("H6", PieceType::Pawn, Color::Black),
            ("A8", PieceType::Rook, Color::White),
            ("D3", PieceType::Bishop, Color::White),
            ("E1", PieceType::King, Color::White),
        ],
        Color::Black,
    );
    assert_eq!(blocked.status(), GameStatus::Checkmate(Color::Black));
}

#[test]
fn cornered_king_is_stalemated() {
    let position = set_up(
        &[
            ("A8", PieceType::King, Color::Black),
            ("B6", PieceType::Queen, Color::White),
            ("E1", PieceType::King, Color::White),
        ],
        Color::Black,
    );
    assert_eq!(position.status(), GameStatus::Stalemate);
    assert!(!position.board.is_in_check(Color::Black));
    assert!(!position.has_legal_move());
}

#[test]
fn pinned_rook_moves_along_the_pin_only() {
    let position = set_up(
        &[
            ("E1", PieceType::King, Color::White),
            ("E2", PieceType::Rook, Color::White),
            ("E8", PieceType::Rook, Color::Black),
            ("A8", PieceType::King, Color::Black),
        ],
        Color::White,
    );
    assert_eq!(listed(&position, "E2"), vec!["E3", "E4", "E5", "E6", "E7", "E8"]);
    assert!(position.board.is_raw_target(sq("E2"), sq("A2"), None));
    assert!(!position.is_legal_move(sq("E2"), sq("A2")));
    assert!(position.is_legal_move(sq("E2"), sq("E8")));
}

#[test]
fn pinned_knight_has_no_legal_move() {
    let position = set_up(
        &[
            ("E1", PieceType::King, Color::White),
            ("E2", PieceType::Knight, Color::White),
            ("E8", PieceType::Rook, Color::Black),
            ("A8", PieceType::King, Color::Black),
        ],
        Color::White,
    );
    assert_eq!(position.board.raw_targets(sq("E2"), None).unwrap().len(), 6);
    assert!(listed(&position, "E2").is_empty());
    assert_eq!(position.status(), GameStatus::Ongoing);
}

#[test]
fn king_may_not_step_onto_an_attacked_square() {
    let position = set_up(
        &[
            ("E1", PieceType::King, Color::White),
            ("D8", PieceType::Rook, Color::Black),
            ("A8", PieceType::King, Color::Black),
        ],
        Color::White,
    );
    assert_eq!(listed(&position, "E1"), vec!["E2", "F1", "F2"]);
}

#[test]
fn other_sides_pieces_have_no_legal_move() {
    let position = Position::initial();
    assert!(listed(&position, "E7").is_empty());
    assert!(listed(&position, "E5").is_empty());
    assert!(position.legal_targets(Square { file: 8, rank: 8 }).is_empty());
    assert!(!position.is_legal_move(sq("E7"), sq("E5")));
    assert!(!position.is_legal_move(Square { file: 4, rank: 9 }, sq("E5")));
    assert!(!position.is_legal_move(sq("E2"), Square { file: 12, rank: 3 }));
}

#[test]
fn castling_both_ways() {
    let mut position = set_up(
        &[
            ("E1", PieceType::King, Color::White),
            ("A1", PieceType::Rook, Color::White),
            ("H1", PieceType::Rook, Color::White),
            ("E8", PieceType::King, Color::Black),
        ],
        Color::White,
    );
    assert_eq!(listed(&position, "E1"), vec!["D1", "D2", "E2", "F1", "F2"]);
    position.castling = CastlingRights::all();
    assert_eq!(listed(&position, "E1"), vec!["C1", "D1", "D2", "E2", "F1", "F2", "G1"]);
    let long = position.after_move(sq("E1"), sq("C1")).unwrap();
    assert_eq!(long.board.piece_at(sq("C1")), Ok(Some(Piece::new(PieceType::King, Color::White))));
    assert_eq!(long.board.piece_at(sq("D1")), Ok(Some(Piece::new(PieceType::Rook, Color::White))));
    assert_eq!(long.board.piece_at(sq("A1")), Ok(None));
    assert_eq!(long.board.piece_at(sq("E1")), Ok(None));
    assert_eq!(long.board.piece_at(sq("H1")), Ok(Some(Piece::new(PieceType::Rook, Color::White))));
    assert_eq!(long.turn, Color::Black);
    assert!(!long.castling.white_king_side);
    assert!(!long.castling.white_queen_side);
    assert!(long.castling.black_king_side);
    position.castling.white_queen_side = false;
    assert_eq!(listed(&position, "E1"), vec!["D1", "D2", "E2", "F1", "F2", "G1"]);
}

#[test]
fn no_castling_out_of_through_or_into_check() {
    let base = [
        ("E1", PieceType::King, Color::White),
        ("A1", PieceType::Rook, Color::White),
        ("H1", PieceType::Rook, Color::White),
        ("A8", PieceType::King, Color::Black),
    ];
    let with = |name: &str| {
        let mut pieces = base.to_vec();
        pieces.push((name, PieceType::Rook, Color::Black));
        let mut position = set_up(&pieces, Color::White);
        position.castling = CastlingRights::all();
        position
    };
    let out_of = with("E8");
    assert!(!out_of.is_legal_move(sq("E1"), sq("G1")));
    assert!(!out_of.is_legal_move(sq("E1"), sq("C1")));
    let through = with("F8");
    assert!(!through.is_legal_move(sq("E1"), sq("G1")));
    assert!(through.is_legal_move(sq("E1"), sq("C1")));
    let into = with("G8");
    assert!(!into.is_legal_move(sq("E1"), sq("G1")));
    assert!(into.is_legal_move(sq("E1"), sq("C1")));
    let beside = with("B8");
    assert!(beside.is_legal_move(sq("E1"), sq("C1")));
    assert!(beside.is_legal_move(sq("E1"), sq("G1")));
    let rook_attacked = with("H8");
    assert!(rook_attacked.is_legal_move(sq("E1"), sq("G1")));
}

#[test]
fn no_castling_over_a_piece() {
    let mut position = set_up(
        &[
            ("E8", PieceType::King, Color::Black),
            ("A8", PieceType::Rook, Color::Black),
            ("H8", PieceType::Rook, Color::Black),
            ("B8", PieceType::Knight, Color::Black),
            ("E1", PieceType::King, Color::White),
        ],
        Color::Black,
    );
    position.castling = CastlingRights::all();
    assert!(!position.is_legal_move(sq("E8"), sq("C8")));
    assert!(position.is_legal_move(sq("E8"), sq("G8")));
    let short = position.after_move(sq("E8"), sq("G8")).unwrap();
    assert_eq!(short.board.piece_at(sq("G8")), Ok(Some(Piece::new(PieceType::King, Color::Black))));
    assert_eq!(short.board.piece_at(sq("F8")), Ok(Some(Piece::new(PieceType::Rook, Color::Black))));
    assert_eq!(short.board.piece_at(sq("H8")), Ok(None));
    assert!(!short.castling.black_king_side);
    assert!(!short.castling.black_queen_side);
}

#[test]
fn capturing_a_rook_at_home_takes_the_right() {
    let mut position = set_up(
        &[
            ("E1", PieceType::King, Color::White),
            ("H1", PieceType::Rook, Color::White),
            ("A1", PieceType::Rook, Color::White),
            ("E8", PieceType::King, Color::Black),
            ("H8", PieceType::Rook, Color::Black),
        ],
        Color::Black,
    );
    position.castling = CastlingRights::all();
    let next = position.after_move(sq("H8"), sq("H1")).unwrap();
    assert!(!next.castling.white_king_side);
    assert!(next.castling.white_queen_side);
    assert!(!next.castling.black_king_side);
    assert!(next.castling.black_queen_side);
}

#[test]
fn after_move_sets_and_clears_the_en_passant_target() {
    let position = Position::initial();
    let next = position.after_move(sq("D2"), sq("D4")).unwrap();
    assert_eq!(next.en_passant, Some(sq("D3")));
    assert_eq!(next.turn, Color::Black);
    let next = next.after_move(sq("G8"), sq("F6")).unwrap();
    assert_eq!(next.en_passant, None);
    let next = next.after_move(sq("D4"), sq("D5")).unwrap();
    assert_eq!(next.en_passant, None);
    let next = next.after_move(sq("E7"), sq("E5")).unwrap();
    assert_eq!(next.en_passant, Some(sq("E6")));
    assert_eq!(listed(&next, "D5"), vec!["D6", "E6"]);
    let next = next.after_move(sq("D5"), sq("E6")).unwrap();
    assert_eq!(next.board.piece_at(sq("E5")), Ok(None));
    assert_eq!(next.board.piece_at(sq("E6")), Ok(Some(Piece::new(PieceType::Pawn, Color::White))));
}

#[test]
fn after_move_promotes_with_the_chosen_kind() {
    let mut position = set_up(
        &[
            ("B7", PieceType::Pawn, Color::White),
            ("A8", PieceType::Rook, Color::Black),
            ("E1", PieceType::King, Color::White),
            ("H8", PieceType::King, Color::Black),
        ],
        Color::White,
    );
    position.promotion = PieceType::Bishop;
    assert_eq!(listed(&position, "B7"), vec!["A8", "B8"]);
    let next = position.after_move(sq("B7"), sq("A8")).unwrap();
    assert_eq!(next.board.piece_at(sq("A8")), Ok(Some(Piece::new(PieceType::Bishop, Color::White))));
    assert_eq!(next.board.piece_at(sq("B7")), Ok(None));
    assert_eq!(next.promotion, PieceType::Queen);
    let black = set_up(
        &[
            ("C2", PieceType::Pawn, Color::Black),
            ("E1", PieceType::King, Color::White),
            ("H8", PieceType::King, Color::Black),
        ],
        Color::Black,
    );
    let next = black.after_move(sq("C2"), sq("C1")).unwrap();
    assert_eq!(next.board.piece_at(sq("C1")), Ok(Some(Piece::new(PieceType::Queen, Color::Black))));
    assert_eq!(next.status(), GameStatus::Check(Color::White));
}

#[test]
fn after_move_refuses_squares_off_the_board() {
    let position = Position::initial();
    assert_eq!(
        position.after_move(Square { file: 8, rank: 1 }, sq("E4")),
        Err(MoveError::InvalidSquare)
    );
    assert_eq!(
        position.after_move(sq("E2"), Square { file: 4, rank: 8 }),
        Err(MoveError::InvalidSquare)
    );
}
