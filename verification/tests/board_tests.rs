use chess_rules::{pos_to_string, Board, Color, MoveError, Piece, PieceType, Square};

fn on(name: &str) -> Square {
    Square::from_notation(name).unwrap()
}

fn put(board: &mut Board, name: &str, piecetype: PieceType, color: Color) {
    board.place(on(name), Some(Piece::new(piecetype, color))).unwrap();
}

fn names(targets: Vec<Square>) -> Vec<String> {
    targets.iter().map(|square| square.name().unwrap()).collect()
}

#[test]
fn pos_to_string_names_squares() {
    assert_eq!(pos_to_string(4, 2), Some(String::from("E2")));
    assert_eq!(pos_to_string(0, 1), Some(String::from("A1")));
    assert_eq!(pos_to_string(7, 8), Some(String::from("H8")));
    assert_eq!(pos_to_string(3, 5), Some(String::from("D5")));
}

#[test]
fn pos_to_string_refuses_what_is_off_the_board() {
    assert_eq!(pos_to_string(8, 1), None);
    assert_eq!(pos_to_string(-1, 1), None);
    assert_eq!(pos_to_string(0, 0), None);
    assert_eq!(pos_to_string(0, 9), None);
    assert_eq!(pos_to_string(0, -3), None);
    assert_eq!(pos_to_string(i8::MAX, i8::MIN), None);
}

#[test]
fn square_new_checks_the_range() {
    assert_eq!(Square::new(0, 0), Some(Square { file: 0, rank: 0 }));
    assert_eq!(Square::new(7, 7), Some(Square { file: 7, rank: 7 }));
    assert_eq!(Square::new(8, 0), None);
    assert_eq!(Square::new(0, 8), None);
    assert_eq!(Square::new(-1, 0), None);
    assert_eq!(Square::new(0, -1), None);
    assert!(Square { file: 7, rank: 0 }.is_valid());
    assert!(!Square { file: 7, rank: 8 }.is_valid());
}

#[test]
fn square_names_round_trip() {
    for file in 0..8u8 {
        for rank in 0..8u8 {
            let square = Square { file, rank };
            let name = square.name().unwrap();
            assert_eq!(name.chars().count(), 2);
            assert_eq!(Square::from_notation(&name), Some(square));
            assert_eq!(pos_to_string(file as i8, rank as i8 + 1), Some(name));
        }
    }
    assert_eq!(Square::from_notation("E2"), Some(Square { file: 4, rank: 1 }));
    assert_eq!(Square { file: 8, rank: 0 }.name(), None);
}

#[test]
fn from_notation_refuses_other_text() {
    assert_eq!(Square::from_notation(""), None);
    assert_eq!(Square::from_notation("E"), None);
    assert_eq!(Square::from_notation("E22"), None);
    assert_eq!(Square::from_notation("e2"), None);
    assert_eq!(Square::from_notation("I1"), None);
    assert_eq!(Square::from_notation("A0"), None);
    assert_eq!(Square::from_notation("A9"), None);
    assert_eq!(Square::from_notation("2E"), None);
}

#[test]
fn color_and_piece_helpers() {
    assert_eq!(Color::White.opposite(), Color::Black);
    assert_eq!(Color::Black.opposite(), Color::White);
    assert_eq!(Color::White.home_rank(), 0);
    assert_eq!(Color::Black.home_rank(), 7);
    assert_eq!(Color::White.pawn_rank(), 1);
    assert_eq!(Color::Black.pawn_rank(), 6);
    assert!(PieceType::Queen.promotable());
    assert!(PieceType::Rook.promotable());
    assert!(PieceType::Bishop.promotable());
    assert!(PieceType::Knight.promotable());
    assert!(!PieceType::King.promotable());
    assert!(!PieceType::Pawn.promotable());
}

#[test]
fn empty_board_holds_nothing() {
    let board = Board::empty();
    for file in 0..8u8 {
        for rank in 0..8u8 {
            assert_eq!(board.piece_at(Square { file, rank }), Ok(None));
        }
    }
}

#[test]
fn standard_board_holds_the_starting_position() {
    let board = Board::standard();
    let back = [
        PieceType::Rook,
        PieceType::Knight,
        PieceType::Bishop,
        PieceType::Queen,
        PieceType::King,
        PieceType::Bishop,
        PieceType::Knight,
        PieceType::Rook,
    ];
    for file in 0..8u8 {
        let kind = back[file as usize];
        assert_eq!(board.piece_at(Square { file, rank: 0 }), Ok(Some(Piece::new(kind, Color::White))));
        assert_eq!(
            board.piece_at(Square { file, rank: 1 }),
            Ok(Some(Piece::new(PieceType::Pawn, Color::White)))
        );
        for rank in 2..6u8 {
            assert_eq!(board.piece_at(Square { file, rank }), Ok(None));
        }
        assert_eq!(
            board.piece_at(Square { file, rank: 6 }),
            Ok(Some(Piece::new(PieceType::Pawn, Color::Black)))
        );
        assert_eq!(board.piece_at(Square { file, rank: 7 }), Ok(Some(Piece::new(kind, Color::Black))));
    }
}

#[test]
fn place_overwrites_one_cell() {
    let mut board = Board::empty();
    let rook = Piece::new(PieceType::Rook, Color::Black);
    assert_eq!(board.place(on("C3"), Some(rook)), Ok(()));
    assert_eq!(board.piece_at(on("C3")), Ok(Some(rook)));
    assert_eq!(board.piece_at(on("C4")), Ok(None));
    assert_eq!(board.place(on("C3"), None), Ok(()));
    assert_eq!(board, Board::empty());
}

#[test]
fn squares_off_the_board_are_refused() {
    let mut board = Board::standard();
    let off = Square { file: 3, rank: 8 };
    assert_eq!(board.piece_at(off), Err(MoveError::InvalidSquare));
    assert_eq!(
        board.place(off, Some(Piece::new(PieceType::Queen, Color::White))),
        Err(MoveError::InvalidSquare)
    );
    assert_eq!(board, Board::standard());
    assert_eq!(board.raw_targets(off, None), Err(MoveError::InvalidSquare));
    assert!(!board.is_raw_target(off, on("A1"), None));
    assert!(!board.is_raw_target(on("B1"), off, None));
}

#[test]
fn raw_targets_of_an_empty_square() {
    let board = Board::standard();
    assert_eq!(board.raw_targets(on("E4"), None), Ok(vec![]));
}

#[test]
fn raw_targets_of_a_king() {
    let mut board = Board::empty();
    put(&mut board, "A1", PieceType::King, Color::White);
    put(&mut board, "A2", PieceType::Pawn, Color::White);
    put(&mut board, "B2", PieceType::Pawn, Color::Black);
    assert_eq!(names(board.raw_targets(on("A1"), None).unwrap()), vec!["B1", "B2"]);
    let mut board = Board::empty();
    put(&mut board, "E4", PieceType::King, Color::Black);
    assert_eq!(
        names(board.raw_targets(on("E4"), None).unwrap()),
        vec!["D3", "D4", "D5", "E3", "E5", "F3", "F4", "F5"]
    );
}

#[test]
fn raw_targets_of_a_knight() {
    let mut board = Board::empty();
    put(&mut board, "A1", PieceType::Knight, Color::White);
    assert_eq!(names(board.raw_targets(on("A1"), None).unwrap()), vec!["B3", "C2"]);
    let mut board = Board::empty();
    put(&mut board, "D4", PieceType::Knight, Color::White);
    put(&mut board, "E6", PieceType::Pawn, Color::White);
    put(&mut board, "F5", PieceType::Pawn, Color::Black);
    assert_eq!(
        names(board.raw_targets(on("D4"), None).unwrap()),
        vec!["B3", "B5", "C2", "C6", "E2", "F3", "F5"]
    );
}

#[test]
fn raw_targets_of_a_rook_stop_at_pieces() {
    let mut board = Board::empty();
    put(&mut board, "D4", PieceType::Rook, Color::White);
    put(&mut board, "D6", PieceType::Pawn, Color::Black);
    put(&mut board, "F4", PieceType::Pawn, Color::White);
    assert_eq!(
        names(board.raw_targets(on("D4"), None).unwrap()),
        vec!["A4", "B4", "C4", "D1", "D2", "D3", "D5", "D6", "E4"]
    );
}

#[test]
fn raw_targets_of_a_bishop_stop_at_pieces() {
    let mut board = Board::empty();
    put(&mut board, "C1", PieceType::Bishop, Color::Black);
    put(&mut board, "E3", PieceType::Knight, Color::White);
    put(&mut board, "A3", PieceType::Knight, Color::Black);
    assert_eq!(names(board.raw_targets(on("C1"), None).unwrap()), vec!["B2", "D2", "E3"]);
}

#[test]
fn raw_targets_of_a_queen() {
    let mut board = Board::empty();
    put(&mut board, "A1", PieceType::Queen, Color::White);
    put(&mut board, "A3", PieceType::Pawn, Color::White);
    put(&mut board, "C3", PieceType::Pawn, Color::Black);
    put(&mut board, "D1", PieceType::Pawn, Color::Black);
    assert_eq!(
        names(board.raw_targets(on("A1"), None).unwrap()),
        vec!["A2", "B1", "B2", "C1", "C3", "D1"]
    );
}

#[test]
fn raw_targets_of_pawns() {
    let board = Board::standard();
    assert_eq!(names(board.raw_targets(on("E2"), None).unwrap()), vec!["E3", "E4"]);
    assert_eq!(names(board.raw_targets(on("E7"), None).unwrap()), vec!["E5", "E6"]);
    let mut board = Board::empty();
    put(&mut board, "E2", PieceType::Pawn, Color::White);
    put(&mut board, "E4", PieceType::Pawn, Color::Black);
    assert_eq!(names(board.raw_targets(on("E2"), None).unwrap()), vec!["E3"]);
    put(&mut board, "E3", PieceType::Pawn, Color::Black);
    assert_eq!(names(board.raw_targets(on("E2"), None).unwrap()), Vec::<String>::new());
    put(&mut board, "D3", PieceType::Knight, Color::Black);
    put(&mut board, "F3", PieceType::Knight, Color::White);
    assert_eq!(names(board.raw_targets(on("E2"), None).unwrap()), vec!["D3"]);
    let mut board = Board::empty();
    put(&mut board, "E3", PieceType::Pawn, Color::White);
    assert_eq!(names(board.raw_targets(on("E3"), None).unwrap()), vec!["E4"]);
    let mut board = Board::empty();
    put(&mut board, "A8", PieceType::Pawn, Color::White);
    assert_eq!(names(board.raw_targets(on("A8"), None).unwrap()), Vec::<String>::new());
}

#[test]
fn raw_targets_of_a_pawn_include_the_en_passant_target() {
    let mut board = Board::empty();
    put(&mut board, "E5", PieceType::Pawn, Color::White);
    put(&mut board, "D5", PieceType::Pawn, Color::Black);
    assert_eq!(names(board.raw_targets(on("E5"), None).unwrap()), vec!["E6"]);
    assert_eq!(
        names(board.raw_targets(on("E5"), Some(on("D6"))).unwrap()),
        vec!["D6", "E6"]
    );
    assert!(board.is_raw_target(on("E5"), on("D6"), Some(on("D6"))));
    assert!(!board.is_raw_target(on("E5"), on("D6"), Some(on("F3"))));
}

#[test]
fn attacks_and_check() {
    let mut board = Board::empty();
    put(&mut board, "E1", PieceType::King, Color::White);
    put(&mut board, "E8", PieceType::Rook, Color::Black);
    assert!(board.is_attacked(on("E1"), Color::Black));
    assert!(board.is_attacked(on("E5"), Color::Black));
    assert!(!board.is_attacked(on("D1"), Color::Black));
    assert!(board.is_attacked(on("D1"), Color::White));
    assert!(board.is_in_check(Color::White));
    assert!(!board.is_in_check(Color::Black));
    put(&mut board, "E4", PieceType::Pawn, Color::White);
    assert!(!board.is_in_check(Color::White));
    put(&mut board, "D2", PieceType::Pawn, Color::Black);
    assert!(board.is_in_check(Color::White));
    assert!(!Board::standard().is_in_check(Color::White));
    assert!(!Board::standard().is_in_check(Color::Black));
}

#[test]
fn a_pawn_does_not_attack_straight_ahead() {
    let mut board = Board::empty();
    put(&mut board, "E1", PieceType::King, Color::White);
    put(&mut board, "E2", PieceType::Pawn, Color::Black);
    assert!(!board.is_in_check(Color::White));
}

