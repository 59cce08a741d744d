//! Check detection and move application with one ply of rollback.
use vstd::prelude::*;

use crate::coords::{coord_index, valid_coord};
use crate::gamestate::{GameState, Position, king_of_at};
use crate::piece::{ChessPiece, Color, PieceType};
use crate::rules::{attacked_by, enemy_color, reach, white_at};

verus! {

/// The piece on square `i` attacks the other side's cached king square.
pub open spec fn gives_check(board: Seq<Option<ChessPiece>>, wkc: int, bkc: int, i: int) -> bool {
    &&& board[i] is Some
    &&& if white_at(board, i) {
        reach(board, i, bkc)
    } else {
        reach(board, i, wkc)
    }
}

/// Scanning squares upward from `i`, the side put in check by the first piece
/// that gives check, if any.
pub open spec fn first_check(board: Seq<Option<ChessPiece>>, wkc: int, bkc: int, i: int) -> Option<Color>
    decreases 64 - i,
{
    if i < 0 || i >= 64 {
        None
    } else if gives_check(board, wkc, bkc, i) {
        Some(
            if white_at(board, i) {
                Color::BLACK
            } else {
                Color::WHITE
            },
        )
    } else {
        first_check(board, wkc, bkc, i + 1)
    }
}

/// The check flag and checked side found by scanning `board`: the side that
/// the first checking piece attacks, or no check at all.
pub open spec fn scan_check(board: Seq<Option<ChessPiece>>, wkc: int, bkc: int) -> (bool, Color) {
    match first_check(board, wkc, bkc, 0) {
        Some(c) => (true, c),
        None => (false, Color::UNCOLORED),
    }
}

/// `p` with its check state replaced.
pub open spec fn with_check(p: Position, chk: (bool, Color)) -> Position {
    Position { checked_flag: chk.0, checked_player: chk.1, ..p }
}

/// The side to move is the side in check.
pub open spec fn was_in_check(p: Position) -> bool {
    p.checked_flag && p.checked_player == p.current_player
}

/// The other side; `UNCOLORED` stays.
pub open spec fn next_color(c: Color) -> Color {
    match c {
        Color::WHITE => Color::BLACK,
        Color::BLACK => Color::WHITE,
        Color::UNCOLORED => Color::UNCOLORED,
    }
}

/// The kind of a piece once it has moved.
pub open spec fn moved_kind(t: PieceType) -> PieceType {
    match t {
        PieceType::PAWN(false) => PieceType::PAWN(true),
        PieceType::ROOK(false) => PieceType::ROOK(true),
        PieceType::KING(false) => PieceType::KING(true),
        _ => t,
    }
}

/// `board` after a king's move from `pc` to `tc` takes the castling rook
/// along: the piece three squares right of `pc` goes to `pc + 1`, or the one
/// four squares left goes to `pc - 1`, in both cases as a moved rook.
pub open spec fn castle_rook(board: Seq<Option<ChessPiece>>, pc: int, tc: int) -> Seq<Option<ChessPiece>> {
    if tc == pc + 2 && pc + 3 < 64 && board[pc + 3] is Some {
        board.update(pc + 3, None).update(
            pc + 1,
            Some(ChessPiece { piecetype: PieceType::ROOK(true), color: board[pc + 3]->0.color }),
        )
    } else if tc == pc - 2 && pc >= 4 && board[pc - 4] is Some {
        board.update(pc - 4, None).update(
            pc - 1,
            Some(ChessPiece { piecetype: PieceType::ROOK(true), color: board[pc - 4]->0.color }),
        )
    } else {
        board
    }
}

/// The board with the piece on `pc` moved to `tc`.
pub open spec fn moved_board(pos: Position, pc: int, tc: int) -> Seq<Option<ChessPiece>> {
    pos.board.update(tc, pos.board[pc]).update(pc, None)
}

/// The cached white king square after the move from `pc` to `tc`: the
/// target if the white king moves, 64 (not found) if the white king is
/// captured, unchanged otherwise.
pub open spec fn wkc_after(pos: Position, pc: int, tc: int) -> int {
    let p = pos.board[pc]->0;
    if p.piecetype is KING && p.color == Color::WHITE {
        tc
    } else if king_of_at(pos.board, Color::WHITE, tc) {
        64
    } else {
        pos.wkc
    }
}

/// The cached black king square after the move from `pc` to `tc` (see
/// `wkc_after`).
pub open spec fn bkc_after(pos: Position, pc: int, tc: int) -> int {
    let p = pos.board[pc]->0;
    if p.piecetype is KING && p.color == Color::BLACK {
        tc
    } else if king_of_at(pos.board, Color::BLACK, tc) {
        64
    } else {
        pos.bkc
    }
}

/// The cached square of the king of `c`.
pub open spec fn king_square(c: Color, wkc: int, bkc: int) -> int {
    if c == Color::WHITE {
        wkc
    } else {
        bkc
    }
}

/// The check state computed on the board after the move.
pub open spec fn check_after(pos: Position, pc: int, tc: int) -> (bool, Color) {
    scan_check(moved_board(pos, pc, tc), wkc_after(pos, pc, tc), bkc_after(pos, pc, tc))
}

/// On the board after the move, some enemy piece attacks the mover's king.
pub open spec fn mover_still_attacked(pos: Position, pc: int, tc: int) -> bool {
    let cur = pos.current_player;
    attacked_by(
        moved_board(pos, pc, tc),
        king_square(cur, wkc_after(pos, pc, tc), bkc_after(pos, pc, tc)),
        enemy_color(cur),
    )
}

/// The move is taken back: the side to move was in check and its king is
/// still attacked after the move.
pub open spec fn move_reverted(pos: Position, pc: int, tc: int) -> bool {
    was_in_check(pos) && mover_still_attacked(pos, pc, tc)
}

/// The board after a committed move: the piece stands on `tc`, marked as
/// moved, and a pending castle brings its rook along.
pub open spec fn committed_board(pos: Position, pc: int, tc: int) -> Seq<Option<ChessPiece>> {
    let p = pos.board[pc]->0;
    let b = moved_board(pos, pc, tc);
    let marked = if moved_kind(p.piecetype) != p.piecetype {
        b.update(tc, Some(ChessPiece { piecetype: moved_kind(p.piecetype), color: p.color }))
    } else {
        b
    };
    if pos.castling_flag && p.piecetype is KING {
        castle_rook(marked, pc, tc)
    } else {
        marked
    }
}

/// The position after `do_valid_move` from `pc` to `tc`. If the side to move
/// was in check and its king is still attacked after the move, the position
/// is left exactly as it was, except that a pending castle is dropped.
/// Otherwise the move is committed: the board before the move and both king
/// squares become the one-ply history, the check state is recomputed and the
/// turn passes.
pub open spec fn after_move(pos: Position, pc: int, tc: int) -> Position {
    let chk = check_after(pos, pc, tc);
    if move_reverted(pos, pc, tc) {
        Position { castling_flag: false, ..pos }
    } else {
        Position {
            board: committed_board(pos, pc, tc),
            prev_board: pos.board,
            current_player: next_color(pos.current_player),
            checked_flag: chk.0,
            checked_player: chk.1,
            debug_flag: pos.debug_flag,
            castling_flag: false,
            wkc: wkc_after(pos, pc, tc),
            bkc: bkc_after(pos, pc, tc),
            old_wkc: pos.wkc,
            old_bkc: pos.bkc,
        }
    }
}

impl GameState {
    /// Recomputes the check state: scanning the squares in order, the first
    /// piece that may move onto the other side's cached king square (by the
    /// same rules as `get_moves_from_tile`) puts that side in check; if none
    /// does, nobody is in check. Castling never captures, so it does not count
    /// here.
    pub fn checked_checker(&mut self)
        requires
            old(self).wf(),
        ensures
            final(self)@ == with_check(
                old(self)@,
                scan_check(old(self).board@, old(self).wkc as int, old(self).bkc as int),
            ),
            final(self).wf(),
    {
        let ghost pos0 = self@;
        let mut i: usize = 0;
        while i < 64
            invariant
                i <= 64,
                pos0 == old(self)@,
                crate::gamestate::position_wf(pos0),
                self@ == pos0,
                first_check(pos0.board, pos0.wkc, pos0.bkc, 0) == first_check(
                    pos0.board,
                    pos0.wkc,
                    pos0.bkc,
                    i as int,
                ),
            decreases 64 - i,
        {
            if let Some(piece) = self.board[i] {
                let white = piece.get_color_as_bool();
                let target = if white {
                    self.bkc
                } else {
                    self.wkc
                };
                if target < 64 && self.piece_reaches(i, target) {
                    self.checked_flag = true;
                    self.checked_player = if white {
                        Color::BLACK
                    } else {
                        Color::WHITE
                    };
                    assert(gives_check(pos0.board, pos0.wkc, pos0.bkc, i as int));
                    return;
                }
            }
            assert(!gives_check(pos0.board, pos0.wkc, pos0.bkc, i as int));
            i = i + 1;
        }
        self.checked_flag = false;
        self.checked_player = Color::UNCOLORED;
    }

    /// Passes the turn: white to black, black to white.
    fn next_player(&mut self)
        ensures
            final(self)@ == (Position { current_player: next_color(old(self).current_player), ..old(self)@ }),
    {
        self.current_player = match self.current_player {
            Color::WHITE => Color::BLACK,
            Color::BLACK => Color::WHITE,
            Color::UNCOLORED => Color::UNCOLORED,
        };
    }

    /// Moves the castling rook next to a king that went from `pc` to `tc`
    /// (see `castle_rook`).
    fn move_castling_rook(&mut self, pc: usize, tc: usize)
        requires
            old(self).wf(),
            pc < 64,
            tc < 64,
        ensures
            final(self)@ == (Position { board: castle_rook(old(self).board@, pc as int, tc as int), ..old(self)@ }),
            final(self).wf(),
    {
        if tc == pc + 2 && pc + 3 < 64 {
            if let Some(rook) = self.board[pc + 3] {
                self.board[pc + 3] = None;
                self.board[pc + 1] = Some(ChessPiece::new(PieceType::ROOK(true), rook.color));
            }
        } else if pc >= 4 && tc == pc - 2 {
            if let Some(rook) = self.board[pc - 4] {
                self.board[pc - 4] = None;
                self.board[pc - 1] = Some(ChessPiece::new(PieceType::ROOK(true), rook.color));
            }
        }
    }

    /// Updates the cached king squares for the move from `pc` to `tc` (see
    /// `wkc_after`, `bkc_after`).
    fn update_king_caches(&mut self, pc: usize, tc: usize)
        requires
            old(self).wf(),
            pc < 64,
            tc < 64,
            old(self).board@[pc as int] is Some,
        ensures
            final(self)@ == (Position {
                wkc: wkc_after(old(self)@, pc as int, tc as int),
                bkc: bkc_after(old(self)@, pc as int, tc as int),
                ..old(self)@
            }),
    {
        let white_king = match self.board[pc] {
            Some(p) => matches!(p.piecetype, PieceType::KING(_)) && p.color == Color::WHITE,
            None => false,
        };
        let black_king = match self.board[pc] {
            Some(p) => matches!(p.piecetype, PieceType::KING(_)) && p.color == Color::BLACK,
            None => false,
        };
        let (taken_white_king, taken_black_king) = match self.board[tc] {
            Some(t) => (
                matches!(t.piecetype, PieceType::KING(_)) && t.color == Color::WHITE,
                matches!(t.piecetype, PieceType::KING(_)) && t.color == Color::BLACK,
            ),
            None => (false, false),
        };
        if white_king {
            self.wkc = tc;
        } else if taken_white_king {
            self.wkc = 64;
        }
        if black_king {
            self.bkc = tc;
        } else if taken_black_king {
            self.bkc = 64;
        }
    }

    /// Plays the move from `pc` to `tc` ("E2", "E4"), which the caller has
    /// found legal with `move_validity_checker`; square `pc` must hold a
    /// piece. If the side to move was in check and its king is still attacked
    /// after the move, the move is rolled back and the position is left as it
    /// was (a pending castle is dropped). Otherwise the board and king squares
    /// before the move become the history, the check state is recomputed, the
    /// turn passes, the piece is marked as moved, and a pending castle brings
    /// its rook along. See `after_move`.
    pub fn do_valid_move(&mut self, pc: &str, tc: &str)
        requires
            old(self).wf(),
            valid_coord(pc@),
            valid_coord(tc@),
            old(self).board@[coord_index(pc@)] is Some,
        ensures
            final(self)@ == after_move(old(self)@, coord_index(pc@), coord_index(tc@)),
            final(self).wf(),
    {
        let pc_usize = GameState::coordinate_translator_str(pc);
        let tc_usize = GameState::coordinate_translator_str(tc);
        let ghost pos0 = self@;
        let piece = match self.board[pc_usize] {
            Some(p) => p,
            None => {
                return;
            },
        };
        let was_checked = self.current_player == self.checked_player && self.checked_flag;
        let saved_prev_board = self.prev_board;
        let saved_old_wkc = self.old_wkc;
        let saved_old_bkc = self.old_bkc;
        self.old_wkc = self.wkc;
        self.old_bkc = self.bkc;
        let is_king = matches!(piece.piecetype, PieceType::KING(_));
        self.update_king_caches(pc_usize, tc_usize);
        self.prev_board = self.board;
        self.board[tc_usize] = Some(piece);
        self.board[pc_usize] = None;
        assert(self.board@ == moved_board(pos0, pc_usize as int, tc_usize as int));
        let mut still_attacked = false;
        if was_checked {
            let mover_white = self.current_player == Color::WHITE;
            let king = if mover_white {
                self.wkc
            } else {
                self.bkc
            };
            let enemy = if mover_white {
                Color::BLACK
            } else {
                Color::WHITE
            };
            still_attacked = king < 64 && self.square_attacked(king, enemy);
        }
        if still_attacked {
            self.board = self.prev_board;
            self.wkc = self.old_wkc;
            self.bkc = self.old_bkc;
            self.prev_board = saved_prev_board;
            self.old_wkc = saved_old_wkc;
            self.old_bkc = saved_old_bkc;
            self.castling_flag = false;
        } else {
            self.checked_checker();
            self.next_player();
            match piece.piecetype {
                PieceType::KING(false) => {
                    self.board[tc_usize] = Some(ChessPiece::new(PieceType::KING(true), piece.color));
                },
                PieceType::PAWN(false) => {
                    self.board[tc_usize] = Some(ChessPiece::new(PieceType::PAWN(true), piece.color));
                },
                PieceType::ROOK(false) => {
                    self.board[tc_usize] = Some(ChessPiece::new(PieceType::ROOK(true), piece.color));
                },
                _ => {},
            }
            if self.castling_flag {
                if is_king {
                    self.move_castling_rook(pc_usize, tc_usize);
                }
                self.castling_flag = false;
            }
        }
    }
}

} // verus!
