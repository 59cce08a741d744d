use chess_engine::{ChessPiece, Color, GameState, PieceType};

fn empty_game(white_king: usize, black_king: usize) -> GameState {
    let mut gs = GameState::new();
    gs.board = [None; 64];
    gs.board[white_king] = Some(ChessPiece::new(PieceType::KING(true), Color::WHITE));
    gs.board[black_king] = Some(ChessPiece::new(PieceType::KING(true), Color::BLACK));
    gs.prev_board = gs.board;
    gs.wkc = white_king;
    gs.bkc = black_king;
    gs.old_wkc = white_king;
    gs.old_bkc = black_king;
    gs
}

#[test]
fn pawn_double_step_from_start() {
    let mut gs = GameState::new();
    assert!(gs.move_validity_checker("E2", "E4"));
    assert!(gs.move_validity_checker("E2", "E3"));
    assert!(!gs.move_validity_checker("E2", "E5"));
    assert!(!gs.castling_flag);
}

#[test]
fn pawn_double_step_needs_both_squares_empty() {
    let mut gs = GameState::new();
    gs.place_piece(20, "Black", "Knight");
    assert!(!gs.move_validity_checker("E2", "E4"));
    assert!(!gs.move_validity_checker("E2", "E3"));
    let mut gs = GameState::new();
    gs.place_piece(28, "Black", "Knight");
    assert!(!gs.move_validity_checker("E2", "E4"));
    assert!(gs.move_validity_checker("E2", "E3"));
}

#[test]
fn pawn_is_marked_moved_after_single_advance() {
    let mut gs = GameState::new();
    assert!(gs.move_validity_checker("E2", "E3"));
    gs.do_valid_move("E2", "E3");
    assert_eq!(gs.board[20], Some(ChessPiece::new(PieceType::PAWN(true), Color::WHITE)));
    assert_eq!(gs.board[12], None);
    assert!(gs.move_validity_checker("A7", "A6"));
    gs.do_valid_move("A7", "A6");
    assert!(!gs.move_validity_checker("E3", "E5"));
    assert!(gs.move_validity_checker("E3", "E4"));
}

#[test]
fn pawn_diagonal_needs_an_enemy() {
    let mut gs = GameState::new();
    assert!(!gs.move_validity_checker("E2", "D3"));
    gs.place_piece(19, "Black", "Pawn");
    assert!(gs.move_validity_checker("E2", "D3"));
    gs.place_piece(21, "White", "Pawn");
    assert!(!gs.move_validity_checker("E2", "F3"));
}

#[test]
fn pawns_move_whichever_side_is_to_move() {
    let mut gs = GameState::new();
    assert!(gs.move_validity_checker("E7", "E5"));
    assert!(gs.move_validity_checker("E2", "E4"));
    gs.current_player = Color::BLACK;
    assert!(gs.move_validity_checker("E2", "E4"));
    assert!(gs.move_validity_checker("E7", "E5"));
    assert!(gs.move_validity_checker("G1", "F3"));
}

#[test]
fn pawn_capture_does_not_wrap_around_the_edge() {
    let mut gs = empty_game(4, 60);
    gs.board[15] = Some(ChessPiece::new(PieceType::PAWN(true), Color::WHITE));
    gs.board[16] = Some(ChessPiece::new(PieceType::PAWN(true), Color::BLACK));
    gs.board[24] = Some(ChessPiece::new(PieceType::PAWN(true), Color::BLACK));
    assert!(!gs.move_validity_checker("H2", "A3"));
    assert!(!gs.move_validity_checker("H2", "A4"));
}

#[test]
fn knight_on_a1_does_not_wrap() {
    let mut gs = empty_game(4, 60);
    gs.board[0] = Some(ChessPiece::new(PieceType::KNIGHT, Color::WHITE));
    assert_eq!(gs.get_moves_from_tile(0), vec![10, 17]);
    assert!(!gs.move_validity_checker("A1", "G1"));
    assert!(!gs.move_validity_checker("A1", "H2"));
}

#[test]
fn knight_on_a5_keeps_the_edge_guard_corner_rule() {
    let mut gs = empty_game(4, 60);
    gs.board[32] = Some(ChessPiece::new(PieceType::KNIGHT, Color::WHITE));
    assert_eq!(gs.get_moves_from_tile(32), vec![17, 26, 42]);
}

#[test]
fn knight_moves_from_start() {
    let mut gs = GameState::new();
    assert_eq!(gs.get_moves_from_tile(1), vec![16, 18]);
    assert_eq!(gs.get_moves_from_tile_as_string(6), "F3, H3, ");
}

#[test]
fn rook_is_blocked_in_every_direction() {
    let mut gs = empty_game(4, 60);
    gs.board[27] = Some(ChessPiece::new(PieceType::ROOK(true), Color::WHITE));
    gs.board[25] = Some(ChessPiece::new(PieceType::PAWN(true), Color::WHITE));
    gs.board[29] = Some(ChessPiece::new(PieceType::PAWN(true), Color::BLACK));
    assert_eq!(gs.get_moves_from_tile(27), vec![3, 11, 19, 26, 28, 29, 35, 43, 51, 59]);
    gs.board[7] = Some(ChessPiece::new(PieceType::ROOK(true), Color::WHITE));
    gs.board[5] = Some(ChessPiece::new(PieceType::BISHOP, Color::BLACK));
    assert!(!gs.move_validity_checker("H1", "A1"));
    assert!(gs.move_validity_checker("H1", "F1"));
    assert!(gs.move_validity_checker("H1", "G1"));
}

#[test]
fn bishop_stops_at_pieces() {
    let mut gs = GameState::new();
    assert_eq!(gs.get_moves_from_tile(2), Vec::<usize>::new());
    let mut gs = empty_game(4, 60);
    gs.board[27] = Some(ChessPiece::new(PieceType::BISHOP, Color::WHITE));
    gs.board[45] = Some(ChessPiece::new(PieceType::PAWN(true), Color::WHITE));
    assert_eq!(gs.get_moves_from_tile(27), vec![0, 6, 9, 13, 18, 20, 34, 36, 41, 48]);
}

#[test]
fn queen_on_open_board() {
    let mut gs = empty_game(7, 56);
    gs.board[27] = Some(ChessPiece::new(PieceType::QUEEN, Color::WHITE));
    let mut expected = vec![
        24, 25, 26, 28, 29, 30, 31, 3, 11, 19, 35, 43, 51, 59, 0, 9, 18, 36, 45, 54, 63, 6, 13,
        20, 34, 41, 48,
    ];
    expected.sort();
    assert_eq!(gs.get_moves_from_tile(27), expected);
}

#[test]
fn king_steps() {
    let mut gs = empty_game(28, 63);
    assert_eq!(gs.get_moves_from_tile(28), vec![19, 20, 21, 27, 29, 35, 36, 37]);
    let mut gs = empty_game(8, 63);
    assert_eq!(gs.get_moves_from_tile(8), vec![0, 1, 9, 16, 17]);
    gs.board[9] = Some(ChessPiece::new(PieceType::PAWN(true), Color::WHITE));
    gs.board[17] = Some(ChessPiece::new(PieceType::PAWN(true), Color::BLACK));
    assert!(!gs.move_validity_checker("A2", "B2"));
    assert!(gs.move_validity_checker("A2", "B3"));
}

#[test]
fn empty_square_has_no_moves() {
    let mut gs = GameState::new();
    assert!(!gs.move_validity_checker("E4", "E5"));
    assert_eq!(gs.get_moves_from_tile(28), Vec::<usize>::new());
    assert_eq!(gs.get_moves_from_tile_as_string(28), "");
}

#[test]
fn moves_onto_a_square() {
    let mut gs = GameState::new();
    assert_eq!(gs.get_moves_to_tile(20), vec![12]);
    assert_eq!(gs.get_moves_to_tile(21), vec![6, 13]);
    assert_eq!(gs.get_color_moves_to_tile(21, Color::WHITE), vec![6, 13]);
    assert_eq!(gs.get_color_moves_to_tile(21, Color::BLACK), Vec::<usize>::new());
    assert_eq!(gs.get_color_moves_to_tile(42, Color::BLACK), vec![50, 57]);
    assert_eq!(gs.get_moves_to_tile(28), vec![12]);
    gs.current_player = Color::BLACK;
    assert_eq!(gs.get_color_moves_to_tile(42, Color::BLACK), vec![50, 57]);
    assert_eq!(gs.get_moves_to_tile(28), vec![12]);
}

#[test]
fn moves_as_text() {
    let mut gs = GameState::new();
    assert_eq!(gs.get_moves_from_tile_as_string(12), "E3, E4, ");
}
