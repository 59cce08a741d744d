use chess_engine::{color_from_name, piece_type_from_name, ChessPiece, Color, GameState, PieceType};

#[test]
fn starting_position_pieces() {
    let gs = GameState::new();
    assert_eq!(gs.board[0], Some(ChessPiece::new(PieceType::ROOK(false), Color::WHITE)));
    assert_eq!(gs.board[4], Some(ChessPiece::new(PieceType::KING(false), Color::WHITE)));
    assert_eq!(gs.board[60], Some(ChessPiece::new(PieceType::KING(false), Color::BLACK)));
    assert_eq!(gs.board[3], Some(ChessPiece::new(PieceType::QUEEN, Color::WHITE)));
    assert_eq!(gs.board[57], Some(ChessPiece::new(PieceType::KNIGHT, Color::BLACK)));
    assert_eq!(gs.board[50], Some(ChessPiece::new(PieceType::PAWN(false), Color::BLACK)));
    for sq in 16..48 {
        assert_eq!(gs.board[sq], None);
    }
}

#[test]
fn starting_position_state() {
    let gs = GameState::new();
    assert_eq!(gs.current_player, Color::WHITE);
    assert!(!gs.checked_flag);
    assert_eq!(gs.checked_player, Color::UNCOLORED);
    assert!(!gs.castling_flag);
    assert_eq!((gs.wkc, gs.bkc, gs.old_wkc, gs.old_bkc), (4, 60, 4, 60));
    assert_eq!(gs.board, gs.prev_board);
    assert!(gs.get_player_color_as_bool());
    assert_eq!(gs.find_white_king(), 4);
    assert_eq!(gs.find_black_king(), 60);
}

#[test]
fn piece_at_coordinate() {
    let gs = GameState::new();
    assert_eq!(gs.get_piece_at("d8"), Some(ChessPiece::new(PieceType::QUEEN, Color::BLACK)));
    assert_eq!(gs.get_piece_at("E4"), None);
}

#[test]
fn kings_not_found() {
    let mut gs = GameState::new();
    gs.board = [None; 64];
    assert_eq!(gs.find_white_king(), 64);
    assert_eq!(gs.find_black_king(), 64);
}

#[test]
fn color_names() {
    assert_eq!(color_from_name("Black"), Some(Color::BLACK));
    assert_eq!(color_from_name("WHITE"), Some(Color::WHITE));
    assert_eq!(color_from_name("bLaCk"), Some(Color::BLACK));
    assert_eq!(color_from_name("purple"), None);
    assert_eq!(color_from_name("blac"), None);
}

#[test]
fn piece_names() {
    assert_eq!(piece_type_from_name("Pawn"), Some(PieceType::PAWN(false)));
    assert_eq!(piece_type_from_name("rook"), Some(PieceType::ROOK(false)));
    assert_eq!(piece_type_from_name("KNIGHT"), Some(PieceType::KNIGHT));
    assert_eq!(piece_type_from_name("Bishop"), Some(PieceType::BISHOP));
    assert_eq!(piece_type_from_name("queen"), Some(PieceType::QUEEN));
    assert_eq!(piece_type_from_name("King"), Some(PieceType::KING(false)));
    assert_eq!(piece_type_from_name("Kings"), None);
}

#[test]
fn place_piece_puts_an_unmoved_piece() {
    let mut gs = GameState::new();
    gs.place_piece(27, "white", "Queen");
    assert_eq!(gs.board[27], Some(ChessPiece::new(PieceType::QUEEN, Color::WHITE)));
    gs.place_piece(0, "Black", "rook");
    assert_eq!(gs.board[0], Some(ChessPiece::new(PieceType::ROOK(false), Color::BLACK)));
}

#[test]
fn colors_as_booleans() {
    assert!(Color::WHITE.match_color_as_bool());
    assert!(!Color::BLACK.match_color_as_bool());
    assert_eq!(Color::match_bool_as_color(true), Color::WHITE);
    assert_eq!(Color::match_bool_as_color(false), Color::BLACK);
    assert_eq!(GameState::bool_to_color(false), Color::BLACK);
    assert!(!ChessPiece::new(PieceType::BISHOP, Color::BLACK).get_color_as_bool());
    let mut gs = GameState::new();
    gs.current_player = Color::BLACK;
    assert!(!gs.get_player_color_as_bool());
    gs.current_player = Color::UNCOLORED;
    assert!(gs.get_player_color_as_bool());
}

#[test]
fn well_formed_positions() {
    let mut gs = GameState::new();
    assert!(gs.is_well_formed());
    gs.board[30] = Some(ChessPiece::new(PieceType::QUEEN, Color::UNCOLORED));
    assert!(!gs.is_well_formed());
    let mut gs = GameState::new();
    gs.board[30] = Some(ChessPiece::new(PieceType::NONE, Color::WHITE));
    assert!(!gs.is_well_formed());
    let mut gs = GameState::new();
    gs.checked_flag = true;
    assert!(!gs.is_well_formed());
    gs.checked_player = Color::BLACK;
    assert!(gs.is_well_formed());
}
