use chess_engine::{ChessPiece, Color, GameState, PieceType};

fn piece(kind: PieceType, color: Color) -> Option<ChessPiece> {
    Some(ChessPiece::new(kind, color))
}

fn empty_game(white_king: usize, black_king: usize) -> GameState {
    let mut gs = GameState::new();
    gs.board = [None; 64];
    gs.board[white_king] = piece(PieceType::KING(true), Color::WHITE);
    gs.board[black_king] = piece(PieceType::KING(true), Color::BLACK);
    gs.prev_board = gs.board;
    gs.wkc = white_king;
    gs.bkc = black_king;
    gs.old_wkc = white_king;
    gs.old_bkc = black_king;
    gs
}

#[test]
fn capture_that_exposes_the_king_is_taken_back() {
    let mut gs = empty_game(4, 63);
    gs.board[12] = piece(PieceType::BISHOP, Color::WHITE);
    gs.board[19] = piece(PieceType::KNIGHT, Color::BLACK);
    gs.board[60] = piece(PieceType::ROOK(true), Color::BLACK);
    gs.checked_checker();
    assert!(gs.checked_flag);
    assert_eq!(gs.checked_player, Color::WHITE);
    let before = gs.board;
    let before_prev = gs.prev_board;
    assert!(gs.move_validity_checker("E2", "D3"));
    gs.do_valid_move("E2", "D3");
    assert_eq!(gs.board, before);
    assert_eq!(gs.current_player, Color::WHITE);
    assert!(gs.checked_flag);
    assert_eq!(gs.checked_player, Color::WHITE);
    assert_eq!((gs.wkc, gs.bkc), (4, 63));
    assert_eq!(gs.prev_board, before_prev);
}

#[test]
fn king_walking_into_check_while_in_check_is_taken_back() {
    let mut gs = empty_game(4, 63);
    gs.board[60] = piece(PieceType::ROOK(true), Color::BLACK);
    gs.board[59] = piece(PieceType::ROOK(true), Color::BLACK);
    gs.checked_checker();
    assert_eq!(gs.checked_player, Color::WHITE);
    let before = gs.board;
    gs.do_valid_move("E1", "D1");
    assert_eq!(gs.board, before);
    assert_eq!(gs.wkc, 4);
    assert_eq!(gs.current_player, Color::WHITE);
    gs.do_valid_move("E1", "F1");
    assert_eq!(gs.board[5], piece(PieceType::KING(true), Color::WHITE));
    assert_eq!(gs.wkc, 5);
    assert_eq!(gs.old_wkc, 4);
    assert!(!gs.checked_flag);
    assert_eq!(gs.checked_player, Color::UNCOLORED);
    assert_eq!(gs.current_player, Color::BLACK);
}

#[test]
fn castling_king_side_end_to_end() {
    let mut gs = GameState::new();
    gs.board[5] = None;
    gs.board[6] = None;
    assert!(gs.get_color_moves_to_tile(5, Color::BLACK).is_empty());
    assert!(gs.get_color_moves_to_tile(6, Color::BLACK).is_empty());
    assert!(gs.move_validity_checker("E1", "G1"));
    assert!(gs.castling_flag);
    gs.do_valid_move("E1", "G1");
    assert_eq!(gs.board[6], piece(PieceType::KING(true), Color::WHITE));
    assert_eq!(gs.board[5], piece(PieceType::ROOK(true), Color::WHITE));
    assert_eq!(gs.board[4], None);
    assert_eq!(gs.board[7], None);
    assert!(!gs.castling_flag);
    assert_eq!(gs.wkc, 6);
    assert_eq!(gs.current_player, Color::BLACK);
}

#[test]
fn castling_queen_side() {
    let mut gs = GameState::new();
    gs.board[1] = None;
    gs.board[2] = None;
    gs.board[3] = None;
    assert!(gs.castling_check(4, 2));
    assert!(gs.castling_flag);
    gs.do_valid_move("E1", "C1");
    assert_eq!(gs.board[2], piece(PieceType::KING(true), Color::WHITE));
    assert_eq!(gs.board[3], piece(PieceType::ROOK(true), Color::WHITE));
    assert_eq!(gs.board[0], None);
    assert!(!gs.castling_flag);
}

#[test]
fn castling_queen_side_needs_the_knight_square_empty() {
    let mut gs = GameState::new();
    gs.board[2] = None;
    gs.board[3] = None;
    assert!(!gs.move_validity_checker("E1", "C1"));
    assert!(!gs.castling_flag);
}

#[test]
fn castling_refused_through_an_attacked_square() {
    let mut gs = GameState::new();
    gs.board[5] = None;
    gs.board[6] = None;
    gs.place_piece(20, "Black", "Knight");
    assert_eq!(gs.get_color_moves_to_tile(5, Color::BLACK), vec![20]);
    assert!(!gs.move_validity_checker("E1", "G1"));
    assert!(!gs.castling_flag);
}

#[test]
fn castling_refused_in_check_or_after_moving() {
    let mut gs = GameState::new();
    gs.board[5] = None;
    gs.board[6] = None;
    gs.checked_flag = true;
    gs.checked_player = Color::WHITE;
    assert!(!gs.move_validity_checker("E1", "G1"));
    let mut gs = GameState::new();
    gs.board[5] = None;
    gs.board[6] = None;
    gs.board[4] = piece(PieceType::KING(true), Color::WHITE);
    assert!(!gs.castling_check(4, 6));
    let mut gs = GameState::new();
    gs.board[5] = None;
    gs.board[6] = None;
    gs.board[7] = piece(PieceType::ROOK(true), Color::WHITE);
    assert!(!gs.castling_check(4, 6));
    gs.board[7] = piece(PieceType::ROOK(false), Color::BLACK);
    assert!(!gs.castling_check(4, 6));
}

#[test]
fn turn_alternates_after_committed_moves() {
    let mut gs = GameState::new();
    gs.do_valid_move("E2", "E4");
    assert_eq!(gs.current_player, Color::BLACK);
    gs.do_valid_move("E7", "E5");
    assert_eq!(gs.current_player, Color::WHITE);
    gs.do_valid_move("G1", "F3");
    assert_eq!(gs.current_player, Color::BLACK);
    assert_eq!(gs.board[21], piece(PieceType::KNIGHT, Color::WHITE));
    assert_eq!(gs.prev_board[6], piece(PieceType::KNIGHT, Color::WHITE));
}

#[test]
fn check_is_detected_after_a_move() {
    let mut gs = empty_game(4, 60);
    gs.board[0] = piece(PieceType::ROOK(true), Color::WHITE);
    assert!(gs.move_validity_checker("A1", "A8"));
    gs.do_valid_move("A1", "A8");
    assert!(gs.checked_flag);
    assert_eq!(gs.checked_player, Color::BLACK);
    assert_eq!(gs.current_player, Color::BLACK);
    gs.do_valid_move("E8", "E7");
    assert!(!gs.checked_flag);
    assert_eq!(gs.bkc, 52);
    assert_eq!(gs.current_player, Color::WHITE);
}

#[test]
fn rook_and_king_are_marked_moved() {
    let mut gs = empty_game(4, 60);
    gs.board[4] = piece(PieceType::KING(false), Color::WHITE);
    gs.board[7] = piece(PieceType::ROOK(false), Color::WHITE);
    gs.do_valid_move("H1", "H4");
    assert_eq!(gs.board[31], piece(PieceType::ROOK(true), Color::WHITE));
    gs.do_valid_move("E8", "D8");
    gs.do_valid_move("E1", "E2");
    assert_eq!(gs.board[12], piece(PieceType::KING(true), Color::WHITE));
}

#[test]
fn empty_board_clears_the_check_state() {
    let mut gs = GameState::new();
    gs.board = [None; 64];
    gs.checked_flag = true;
    gs.checked_player = Color::BLACK;
    gs.checked_checker();
    assert!(!gs.checked_flag);
    assert_eq!(gs.checked_player, Color::UNCOLORED);
}

#[test]
fn capture_that_exposes_the_king_while_giving_check_is_taken_back() {
    let mut gs = empty_game(4, 55);
    gs.board[12] = piece(PieceType::BISHOP, Color::WHITE);
    gs.board[19] = piece(PieceType::KNIGHT, Color::BLACK);
    gs.board[60] = piece(PieceType::ROOK(true), Color::BLACK);
    gs.checked_checker();
    assert_eq!(gs.checked_player, Color::WHITE);
    gs.prev_board[0] = piece(PieceType::QUEEN, Color::BLACK);
    gs.old_wkc = 3;
    gs.old_bkc = 61;
    let before = gs.board;
    let before_prev = gs.prev_board;
    assert!(gs.move_validity_checker("E2", "D3"));
    gs.do_valid_move("E2", "D3");
    assert_eq!(gs.board, before);
    assert_eq!(gs.prev_board, before_prev);
    assert_eq!((gs.wkc, gs.bkc, gs.old_wkc, gs.old_bkc), (4, 55, 3, 61));
    assert_eq!(gs.current_player, Color::WHITE);
    assert!(gs.checked_flag);
    assert_eq!(gs.checked_player, Color::WHITE);
    assert!(!gs.castling_flag);
}

#[test]
fn pawn_check_agrees_with_its_moves() {
    let mut gs = empty_game(4, 60);
    gs.board[11] = piece(PieceType::PAWN(true), Color::BLACK);
    gs.checked_checker();
    assert!(gs.checked_flag);
    assert_eq!(gs.checked_player, Color::WHITE);
    assert_eq!(gs.get_moves_from_tile(11), vec![3, 4]);
}

#[test]
fn castling_does_not_wrap_around_the_edge() {
    let mut gs = empty_game(6, 60);
    gs.board[6] = piece(PieceType::KING(false), Color::WHITE);
    gs.board[9] = piece(PieceType::ROOK(false), Color::WHITE);
    assert!(!gs.castling_check(6, 8));
    let mut gs = empty_game(5, 60);
    gs.board[5] = piece(PieceType::KING(false), Color::WHITE);
    gs.board[8] = piece(PieceType::ROOK(false), Color::WHITE);
    assert!(!gs.castling_check(5, 7));
    assert!(!gs.castling_flag);
}

#[test]
fn pawn_check_holds_whichever_side_is_to_move() {
    let mut gs = empty_game(4, 36);
    gs.board[27] = piece(PieceType::PAWN(true), Color::WHITE);
    gs.board[56] = piece(PieceType::ROOK(true), Color::BLACK);
    gs.current_player = Color::BLACK;
    gs.checked_checker();
    assert!(gs.checked_flag);
    assert_eq!(gs.checked_player, Color::BLACK);
    let before = gs.board;
    gs.do_valid_move("A8", "A7");
    assert_eq!(gs.board, before);
    assert_eq!(gs.current_player, Color::BLACK);
    gs.do_valid_move("E5", "E6");
    assert_eq!(gs.current_player, Color::WHITE);
    assert_eq!(gs.bkc, 44);
    assert!(!gs.checked_flag);
}

#[test]
fn captured_king_is_no_longer_found() {
    let mut gs = empty_game(4, 12);
    assert!(gs.move_validity_checker("E1", "E2"));
    gs.do_valid_move("E1", "E2");
    assert_eq!(gs.wkc, 12);
    assert_eq!(gs.bkc, 64);
    assert_eq!(gs.find_white_king(), 12);
    assert_eq!(gs.find_black_king(), 64);
}

#[test]
fn pending_castle_is_dropped_by_another_move() {
    let mut gs = GameState::new();
    gs.board[5] = None;
    gs.board[6] = None;
    assert!(gs.move_validity_checker("E1", "G1"));
    assert!(gs.castling_flag);
    gs.do_valid_move("E1", "F1");
    assert!(!gs.castling_flag);
    assert_eq!(gs.board[5], piece(PieceType::KING(true), Color::WHITE));
    assert_eq!(gs.board[7], piece(PieceType::ROOK(false), Color::WHITE));
    assert_eq!(gs.board[6], None);
}

#[test]
fn listing_moves_raises_the_castle_flag() {
    let mut gs = GameState::new();
    gs.board[5] = None;
    gs.board[6] = None;
    assert_eq!(gs.get_moves_from_tile(4), vec![5, 6]);
    assert!(gs.castling_flag);
}
