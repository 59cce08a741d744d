//! A chess rules engine: board positions, move legality for every kind of
//! piece, check detection, castling and move application with one ply of
//! rollback.
pub mod coords;
pub mod gamestate;
pub mod laws;
mod moves;
pub mod names;
pub mod piece;
pub mod play;
pub mod queries;
pub mod rules;

pub use coords::is_valid_coordinate;
pub use gamestate::GameState;
pub use names::{color_from_name, piece_type_from_name};
pub use piece::{ChessPiece, Color, PieceType};
