use chess_engine::{is_valid_coordinate, GameState};

#[test]
fn every_square_round_trips_through_text() {
    for sq in 0..64usize {
        let text = GameState::coordinate_translator_usize(sq);
        assert!(is_valid_coordinate(&text));
        assert_eq!(GameState::coordinate_translator_str(&text), sq);
    }
}

#[test]
fn square_text_values() {
    assert_eq!(GameState::coordinate_translator_usize(0), "A1");
    assert_eq!(GameState::coordinate_translator_usize(12), "E2");
    assert_eq!(GameState::coordinate_translator_usize(60), "E8");
    assert_eq!(GameState::coordinate_translator_usize(63), "H8");
}

#[test]
fn text_square_values_either_case() {
    assert_eq!(GameState::coordinate_translator_str("A1"), 0);
    assert_eq!(GameState::coordinate_translator_str("e2"), 12);
    assert_eq!(GameState::coordinate_translator_str("E2"), 12);
    assert_eq!(GameState::coordinate_translator_str("h8"), 63);
}

#[test]
fn malformed_coordinates_are_not_valid() {
    assert!(!is_valid_coordinate(""));
    assert!(!is_valid_coordinate("E"));
    assert!(!is_valid_coordinate("I1"));
    assert!(!is_valid_coordinate("E9"));
    assert!(!is_valid_coordinate("E0"));
    assert!(!is_valid_coordinate("2E"));
    assert!(!is_valid_coordinate("E22"));
    assert!(is_valid_coordinate("c7"));
}

#[test]
fn file_and_rank_arithmetic() {
    assert_eq!(GameState::coord_x(12), 4);
    assert_eq!(GameState::coord_y(12), 1);
    assert_eq!(GameState::abs_diff_x(0, 7), 7);
    assert_eq!(GameState::abs_diff_x(7, 0), 7);
    assert_eq!(GameState::abs_diff_y(3, 59), 7);
    assert_eq!(GameState::diff_x(7, 0), -7);
    assert_eq!(GameState::diff_x(0, 7), 7);
    assert_eq!(GameState::diff_y(59, 3), -7);
    assert_eq!(GameState::diff_y(12, 28), 2);
}
