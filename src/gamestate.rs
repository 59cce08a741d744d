use vstd::prelude::*;

use crate::names::{color_named, kind_named, color_from_name, piece_type_from_name};
use crate::piece::{ChessPiece, Color, PieceType, piece_wf};

verus! {

/// A chess position together with the engine's bookkeeping: the board, the
/// board one ply ago (for rollback), whose turn it is, the check state, a
/// pending-castle flag, and the cached squares of both kings with their values
/// one ply ago. Squares are numbered `rank * 8 + file`, with rank 0 the first
/// rank and file 0 the A file.
pub struct GameState {
    pub board: [Option<ChessPiece>; 64],
    pub prev_board: [Option<ChessPiece>; 64],
    pub current_player: Color,
    pub checked_flag: bool,
    pub checked_player: Color,
    pub debug_flag: bool,
    pub castling_flag: bool,
    pub wkc: usize,
    pub bkc: usize,
    pub old_wkc: usize,
    pub old_bkc: usize,
}

/// The mathematical model of a [`GameState`]: boards as sequences, squares as
/// integers.
pub struct Position {
    pub board: Seq<Option<ChessPiece>>,
    pub prev_board: Seq<Option<ChessPiece>>,
    pub current_player: Color,
    pub checked_flag: bool,
    pub checked_player: Color,
    pub debug_flag: bool,
    pub castling_flag: bool,
    pub wkc: int,
    pub bkc: int,
    pub old_wkc: int,
    pub old_bkc: int,
}

impl View for GameState {
    type V = Position;

    open spec fn view(&self) -> Position {
        Position {
            board: self.board@,
            prev_board: self.prev_board@,
            current_player: self.current_player,
            checked_flag: self.checked_flag,
            checked_player: self.checked_player,
            debug_flag: self.debug_flag,
            castling_flag: self.castling_flag,
            wkc: self.wkc as int,
            bkc: self.bkc as int,
            old_wkc: self.old_wkc as int,
            old_bkc: self.old_bkc as int,
        }
    }
}

/// Every occupied square of `board` holds a real piece of a real color.
pub open spec fn board_wf(board: Seq<Option<ChessPiece>>) -> bool {
    &&& board.len() == 64
    &&& forall|i: int| 0 <= i < 64 && (#[trigger] board[i]) is Some ==> piece_wf(board[i]->0)
}

/// The position is well formed: its board holds only real pieces, and a
/// raised check flag names a real color.
pub open spec fn position_wf(p: Position) -> bool {
    &&& board_wf(p.board)
    &&& p.prev_board.len() == 64
    &&& p.checked_flag ==> p.checked_player != Color::UNCOLORED
}

/// `p` with its pending-castle flag set to `flag`.
pub open spec fn with_castle_flag(p: Position, flag: bool) -> Position {
    Position { castling_flag: flag, ..p }
}

impl GameState {
    pub open spec fn wf(&self) -> bool {
        position_wf(self@)
    }
}


/// The kind of piece that starts on file `f` of a back rank.
pub open spec fn back_rank_kind(f: int) -> PieceType {
    seq![
        PieceType::ROOK(false),
        PieceType::KNIGHT,
        PieceType::BISHOP,
        PieceType::QUEEN,
        PieceType::KING(false),
        PieceType::BISHOP,
        PieceType::KNIGHT,
        PieceType::ROOK(false),
    ][f]
}

/// What square `i` holds in the standard starting arrangement.
pub open spec fn start_square(i: int) -> Option<ChessPiece> {
    if i / 8 == 0 {
        Some(ChessPiece { piecetype: back_rank_kind(i % 8), color: Color::WHITE })
    } else if i / 8 == 1 {
        Some(ChessPiece { piecetype: PieceType::PAWN(false), color: Color::WHITE })
    } else if i / 8 == 6 {
        Some(ChessPiece { piecetype: PieceType::PAWN(false), color: Color::BLACK })
    } else if i / 8 == 7 {
        Some(ChessPiece { piecetype: back_rank_kind(i % 8), color: Color::BLACK })
    } else {
        None
    }
}

/// The starting board, square by square.
pub open spec fn start_board() -> Seq<Option<ChessPiece>> {
    Seq::new(64, |i: int| start_square(i))
}

/// Square `i` holds a king of `color`.
pub open spec fn king_of_at(board: Seq<Option<ChessPiece>>, color: Color, i: int) -> bool {
    board[i] is Some && board[i]->0.piecetype is KING && board[i]->0.color == color
}

/// The lowest square holding a king of `color`, or 64 if there is none.
pub open spec fn is_first_king(board: Seq<Option<ChessPiece>>, color: Color, r: int) -> bool {
    &&& 0 <= r <= 64
    &&& r < 64 ==> king_of_at(board, color, r)
    &&& forall|j: int| 0 <= j < r ==> !king_of_at(board, color, j)
}

fn start_piece(i: usize) -> (r: Option<ChessPiece>)
    requires
        i < 64,
    ensures
        r == start_square(i as int),
{
    let rank = i / 8;
    let kind = match i % 8 {
        0 => PieceType::ROOK(false),
        1 => PieceType::KNIGHT,
        2 => PieceType::BISHOP,
        3 => PieceType::QUEEN,
        4 => PieceType::KING(false),
        5 => PieceType::BISHOP,
        6 => PieceType::KNIGHT,
        _ => PieceType::ROOK(false),
    };
    if rank == 0 {
        Some(ChessPiece::new(kind, Color::WHITE))
    } else if rank == 1 {
        Some(ChessPiece::new(PieceType::PAWN(false), Color::WHITE))
    } else if rank == 6 {
        Some(ChessPiece::new(PieceType::PAWN(false), Color::BLACK))
    } else if rank == 7 {
        Some(ChessPiece::new(kind, Color::BLACK))
    } else {
        None
    }
}

impl GameState {
    /// The standard starting position: White to move, nobody in check, no
    /// castle pending, the kings on E1 and E8, and the history equal to the
    /// present.
    pub fn new() -> (r: GameState)
        ensures
            r.board@ == start_board(),
            r.prev_board@ == start_board(),
            r.current_player == Color::WHITE,
            !r.checked_flag,
            r.checked_player == Color::UNCOLORED,
            !r.debug_flag,
            !r.castling_flag,
            r.wkc == 4,
            r.bkc == 60,
            r.old_wkc == 4,
            r.old_bkc == 60,
            r.wf(),
    {
        let mut board: [Option<ChessPiece>; 64] = [None; 64];
        let mut i: usize = 0;
        while i < 64
            invariant
                i <= 64,
                board@.len() == 64,
                forall|j: int| 0 <= j < i ==> #[trigger] board@[j] == start_square(j),
            decreases 64 - i,
        {
            board[i] = start_piece(i);
            i = i + 1;
        }
        assert(board@ =~= start_board());
        GameState {
            board,
            prev_board: board,
            current_player: Color::WHITE,
            checked_flag: false,
            checked_player: Color::UNCOLORED,
            debug_flag: false,
            castling_flag: false,
            wkc: 4,
            bkc: 60,
            old_wkc: 4,
            old_bkc: 60,
        }
    }

    /// Whether the position is well formed (see `position_wf`): every
    /// occupied square holds a real piece of a real color, and a raised check
    /// flag names a real color. Positions read from outside are checked with
    /// this before use.
    pub fn is_well_formed(&self) -> (r: bool)
        ensures
            r == self.wf(),
    {
        if self.checked_flag && self.checked_player == Color::UNCOLORED {
            return false;
        }
        let mut i: usize = 0;
        while i < 64
            invariant
                i <= 64,
                self.board@.len() == 64,
                forall|j: int|
                    0 <= j < i && (#[trigger] self.board@[j]) is Some ==> piece_wf(self.board@[j]->0),
            decreases 64 - i,
        {
            if let Some(p) = self.board[i] {
                if p.color == Color::UNCOLORED || p.piecetype == PieceType::NONE {
                    return false;
                }
            }
            i = i + 1;
        }
        true
    }

    /// The side to move as a boolean: `true` for white, and also for
    /// `UNCOLORED`; `false` for black.
    pub fn get_player_color_as_bool(&self) -> (r: bool)
        ensures
            r == (self.current_player != Color::BLACK),
    {
        match self.current_player {
            Color::BLACK => false,
            _ => true,
        }
    }

    /// The color that `b` stands for: `true` is white, `false` is black.
    pub fn bool_to_color(b: bool) -> (r: Color)
        ensures
            r == (if b {
                Color::WHITE
            } else {
                Color::BLACK
            }),
    {
        if b {
            Color::WHITE
        } else {
            Color::BLACK
        }
    }

    /// The lowest square holding a king of `color`, or 64 if there is none.
    fn find_king(&self, color: Color) -> (r: usize)
        ensures
            is_first_king(self.board@, color, r as int),
    {
        let mut i: usize = 0;
        while i < 64
            invariant
                i <= 64,
                forall|j: int| 0 <= j < i ==> !king_of_at(self.board@, color, j),
            decreases 64 - i,
        {
            if let Some(piece) = self.board[i] {
                if matches!(piece.piecetype, PieceType::KING(_)) && piece.color == color {
                    return i;
                }
            }
            i = i + 1;
        }
        64
    }

    /// The lowest square holding a white king, or 64 if there is none.
    pub fn find_white_king(&self) -> (r: usize)
        ensures
            is_first_king(self.board@, Color::WHITE, r as int),
    {
        self.find_king(Color::WHITE)
    }

    /// The lowest square holding a black king, or 64 if there is none.
    pub fn find_black_king(&self) -> (r: usize)
        ensures
            is_first_king(self.board@, Color::BLACK, r as int),
    {
        self.find_king(Color::BLACK)
    }

    /// Setup only: puts an unmoved piece of the named kind and color on
    /// square `coord_numeric`, whatever stood there, with no legality check.
    /// The names must be known (see `color_from_name`,
    /// `piece_type_from_name`).
    pub fn place_piece(&mut self, coord_numeric: usize, color_string: &str, piece_string: &str)
        requires
            old(self).wf(),
            coord_numeric < 64,
            color_named(color_string@) is Some,
            kind_named(piece_string@) is Some,
        ensures
            final(self)@ == (Position {
                board: old(self).board@.update(
                    coord_numeric as int,
                    Some(
                        ChessPiece {
                            piecetype: kind_named(piece_string@)->0,
                            color: color_named(color_string@)->0,
                        },
                    ),
                ),
                ..old(self)@
            }),
            final(self).wf(),
    {
        let color = match color_from_name(color_string) {
            Some(c) => c,
            None => {
                return;
            },
        };
        let piecetype = match piece_type_from_name(piece_string) {
            Some(t) => t,
            None => {
                return;
            },
        };
        self.board[coord_numeric] = Some(ChessPiece::new(piecetype, color));
    }
}

} // verus!
