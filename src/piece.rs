use vstd::prelude::*;

verus! {

/// The kind of a chess piece. Pawns, rooks and kings carry a flag that
/// records whether the piece has moved; `NONE` is the "no piece" kind that a
/// uniform representation may need, and never stands on a board.
#[allow(non_camel_case_types, clippy::upper_case_acronyms)]
#[derive(PartialEq, Eq, Structural, Copy, Clone, Debug)]
pub enum PieceType {
    PAWN(bool),
    BISHOP,
    ROOK(bool),
    KNIGHT,
    QUEEN,
    KING(bool),
    NONE,
}

/// The side a piece belongs to. `UNCOLORED` is a sentinel for "nobody" (for
/// example: no side is in check) and is never the color of a piece on a board.
#[allow(non_camel_case_types, clippy::upper_case_acronyms)]
#[derive(PartialEq, Eq, Structural, Copy, Clone, Debug)]
pub enum Color {
    WHITE,
    BLACK,
    UNCOLORED,
}

/// A piece on the board: its kind and its color.
#[derive(PartialEq, Eq, Structural, Copy, Clone, Debug)]
pub struct ChessPiece {
    pub piecetype: PieceType,
    pub color: Color,
}

/// `true` for white, `false` for black: meaningful for the two real colors.
pub open spec fn color_bool(c: Color) -> bool {
    c == Color::WHITE
}

/// The color that a boolean stands for (`true` is white).
pub open spec fn bool_color(b: bool) -> Color {
    if b {
        Color::WHITE
    } else {
        Color::BLACK
    }
}

/// A piece may stand on a board: it has a real color and a real kind.
pub open spec fn piece_wf(p: ChessPiece) -> bool {
    p.color != Color::UNCOLORED && p.piecetype != PieceType::NONE
}

impl Color {
    /// White as `true`, black as `false`. Asking this of `UNCOLORED` is a
    /// caller error.
    pub fn match_color_as_bool(&self) -> (r: bool)
        requires
            *self != Color::UNCOLORED,
        ensures
            r == color_bool(*self),
    {
        match self {
            Color::WHITE => true,
            Color::BLACK => false,
            Color::UNCOLORED => false,
        }
    }

    /// The color that `b` stands for: `true` is white, `false` is black.
    pub fn match_bool_as_color(b: bool) -> (r: Color)
        ensures
            r == bool_color(b),
            r != Color::UNCOLORED,
            color_bool(r) == b,
    {
        if b {
            Color::WHITE
        } else {
            Color::BLACK
        }
    }
}

impl ChessPiece {
    /// A piece of the given kind and color.
    pub fn new(new_type: PieceType, new_color: Color) -> (r: ChessPiece)
        ensures
            r.piecetype == new_type,
            r.color == new_color,
    {
        ChessPiece { piecetype: new_type, color: new_color }
    }

    /// The piece's color as a boolean (white is `true`). The piece must have
    /// a real color.
    pub fn get_color_as_bool(&self) -> (r: bool)
        requires
            self.color != Color::UNCOLORED,
        ensures
            r == color_bool(self.color),
    {
        match self.color {
            Color::WHITE => true,
            _ => false,
        }
    }
}

} // verus!
