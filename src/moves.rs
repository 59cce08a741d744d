//! The movement rules of each kind of piece, decided on the board.
use vstd::prelude::*;

use crate::coords::{coord_index, valid_coord};
use crate::gamestate::{GameState, with_castle_flag};
use crate::piece::{ChessPiece, Color, PieceType, color_bool};
use crate::rules::{
    attacked_by, between_clear, bishop_reach, castle_ok, edge_ok, enemy_at, file, file_dist,
    is_castle_attempt, king_step, knight_reach, legal, line_len, pawn_reach, queen_reach, rank,
    rank_dist, reach, rook_reach, target_ok, toward,
};

verus! {

impl GameState {
    /// The edge-wrap guard of the movement rules (see `edge_ok`).
    fn out_of_bounds_checker(&self, current_coord_numeric: usize, target_coord_numeric: usize) -> (r:
        bool)
        ensures
            r == edge_ok(current_coord_numeric as int, target_coord_numeric as int),
    {
        if current_coord_numeric > 63 {
            return false;
        }
        if current_coord_numeric % 8 == 0 && target_coord_numeric % 7 == 0 {
            target_coord_numeric == 0
        } else if current_coord_numeric % 7 == 0 && target_coord_numeric % 8 == 0 {
            current_coord_numeric == 0
        } else {
            true
        }
    }

    /// Square `tc` is empty or holds a piece of the other side than `white`.
    fn free_or_enemy(&self, tc: usize, white: bool) -> (r: bool)
        requires
            self.wf(),
            tc < 64,
        ensures
            r == target_ok(self.board@, tc as int, white),
    {
        match self.board[tc] {
            Some(other) => other.get_color_as_bool() != white,
            None => true,
        }
    }

    /// Square `tc` holds a piece of the other side than `white`.
    fn enemy_on(&self, tc: usize, white: bool) -> (r: bool)
        requires
            self.wf(),
            tc < 64,
        ensures
            r == enemy_at(self.board@, tc as int, white),
    {
        match self.board[tc] {
            Some(other) => other.get_color_as_bool() != white,
            None => false,
        }
    }

    /// Whether the pawn `piece`, standing on `pc`, may go to `tc` (see
    /// `pawn_reach`).
    fn pawn_move_checker(&self, piece: ChessPiece, pc: usize, tc: usize) -> (r: bool)
        requires
            self.wf(),
            pc < 64,
            tc < 64,
            self.board@[pc as int] == Some(piece),
            piece.piecetype is PAWN,
        ensures
            r == pawn_reach(
                self.board@,
                pc as int,
                tc as int,
                color_bool(piece.color),
                piece.piecetype->PAWN_0,
            ),
    {
        let white = piece.get_color_as_bool();
        let moved = match piece.piecetype {
            PieceType::PAWN(m) => m,
            _ => true,
        };
        if GameState::abs_diff_x(pc, tc) > 1 || GameState::abs_diff_y(pc, tc) > 2 {
            return false;
        }
        if white {
            if tc == pc + 8 {
                self.board[tc].is_none()
            } else if tc == pc + 16 {
                !moved && self.board[pc + 8].is_none() && self.board[tc].is_none()
            } else if tc == pc + 7 || tc == pc + 9 {
                self.out_of_bounds_checker(pc, tc) && self.enemy_on(tc, white)
            } else {
                false
            }
        } else {
            if pc >= 8 && tc == pc - 8 {
                self.board[tc].is_none()
            } else if pc >= 16 && tc == pc - 16 {
                !moved && self.board[pc - 8].is_none() && self.board[tc].is_none()
            } else if (pc >= 7 && tc == pc - 7) || (pc >= 9 && tc == pc - 9) {
                self.out_of_bounds_checker(pc, tc) && self.enemy_on(tc, white)
            } else {
                false
            }
        }
    }

    /// Whether the knight `piece`, standing on `pc`, may go to `tc`.
    fn knight_move_checker(&self, piece: ChessPiece, pc: usize, tc: usize) -> (r: bool)
        requires
            self.wf(),
            pc < 64,
            tc < 64,
            self.board@[pc as int] == Some(piece),
            piece.piecetype is KNIGHT,
        ensures
            r == knight_reach(self.board@, pc as int, tc as int, color_bool(piece.color)),
    {
        let white = piece.get_color_as_bool();
        let dx = GameState::abs_diff_x(pc, tc);
        let dy = GameState::abs_diff_y(pc, tc);
        if !((dx == 1 && dy == 2) || (dx == 2 && dy == 1)) {
            return false;
        }
        let path_ok = if tc == pc + 17 || tc == pc + 15 {
            self.out_of_bounds_checker(pc + 16, tc)
        } else if (pc >= 17 && tc == pc - 17) || (pc >= 15 && tc == pc - 15) {
            assert(pc >= 16);
            self.out_of_bounds_checker(pc - 16, tc)
        } else if tc == pc + 10 {
            self.out_of_bounds_checker(pc + 9, tc) && self.out_of_bounds_checker(pc + 10, tc)
        } else if tc == pc + 6 {
            self.out_of_bounds_checker(pc + 7, tc) && self.out_of_bounds_checker(pc + 6, tc)
        } else if pc >= 10 && tc == pc - 10 {
            self.out_of_bounds_checker(pc - 9, tc) && self.out_of_bounds_checker(pc - 10, tc)
        } else if pc >= 6 && tc == pc - 6 {
            assert(pc >= 7);
            self.out_of_bounds_checker(pc - 7, tc) && self.out_of_bounds_checker(pc - 6, tc)
        } else {
            true
        };
        path_ok && self.free_or_enemy(tc, white)
    }

    /// Whether the king `piece`, standing on `pc`, may step to `tc` (one
    /// square; castling aside).
    fn king_step_checker(&self, piece: ChessPiece, pc: usize, tc: usize) -> (r: bool)
        requires
            self.wf(),
            pc < 64,
            tc < 64,
            self.board@[pc as int] == Some(piece),
            piece.piecetype is KING,
        ensures
            r == king_step(self.board@, pc as int, tc as int, color_bool(piece.color)),
    {
        let white = piece.get_color_as_bool();
        let step_ok = if tc == pc + 8 || tc == pc + 1 || (pc >= 1 && tc == pc - 1) || (pc >= 8 && tc
            == pc - 8) {
            self.out_of_bounds_checker(pc, tc)
        } else if tc == pc + 7 || tc == pc + 9 {
            self.out_of_bounds_checker(pc + 8, tc)
        } else if (pc >= 7 && tc == pc - 7) || (pc >= 9 && tc == pc - 9) {
            pc >= 8 && self.out_of_bounds_checker(pc - 8, tc)
        } else {
            false
        };
        step_ok && self.free_or_enemy(tc, white) && GameState::abs_diff_x(pc, tc) <= 1
            && GameState::abs_diff_y(pc, tc) <= 1
    }

    /// Whether every square strictly between `pc` and `tc` on the straight
    /// or diagonal line joining them is empty.
    fn path_is_clear(&self, pc: usize, tc: usize) -> (r: bool)
        requires
            self.wf(),
            pc < 64,
            tc < 64,
            file_dist(pc as int, tc as int) == 0 || rank_dist(pc as int, tc as int) == 0
                || file_dist(pc as int, tc as int) == rank_dist(pc as int, tc as int),
        ensures
            r == between_clear(self.board@, pc as int, tc as int),
    {
        let fp = GameState::coord_x(pc);
        let rp = GameState::coord_y(pc);
        let ft = GameState::coord_x(tc);
        let rt = GameState::coord_y(tc);
        let dx = GameState::abs_diff_x(pc, tc);
        let dy = GameState::abs_diff_y(pc, tc);
        let n = if dx > dy {
            dx
        } else {
            dy
        };
        let mut k: usize = 1;
        while k < n
            invariant
                self.wf(),
                pc < 64,
                tc < 64,
                fp as int == file(pc as int),
                rp as int == rank(pc as int),
                ft as int == file(tc as int),
                rt as int == rank(tc as int),
                dx as int == file_dist(pc as int, tc as int),
                dy as int == rank_dist(pc as int, tc as int),
                dx == 0 || dy == 0 || dx == dy,
                n as int == line_len(pc as int, tc as int),
                1 <= k,
                forall|j: int|
                    1 <= j < k && j < n ==> (#[trigger] self.board@[toward(rp as int, rt as int, j)
                        * 8 + toward(fp as int, ft as int, j)]) is None,
            decreases n - k,
        {
            let f = if ft > fp {
                fp + k
            } else if ft < fp {
                fp - k
            } else {
                fp
            };
            let g = if rt > rp {
                rp + k
            } else if rt < rp {
                rp - k
            } else {
                rp
            };
            assert(f as int == toward(fp as int, ft as int, k as int));
            assert(g as int == toward(rp as int, rt as int, k as int));
            if self.board[g * 8 + f].is_some() {
                assert(self.board@[toward(rank(pc as int), rank(tc as int), k as int) * 8 + toward(
                    file(pc as int),
                    file(tc as int),
                    k as int,
                )] is Some);
                return false;
            }
            k = k + 1;
        }
        true
    }

    /// Whether the bishop `piece` (or a queen moving as a bishop), standing on
    /// `pc`, may go to `tc`.
    fn bishop_move_checker(&self, piece: ChessPiece, pc: usize, tc: usize) -> (r: bool)
        requires
            self.wf(),
            pc < 64,
            tc < 64,
            self.board@[pc as int] == Some(piece),
            piece.piecetype == PieceType::BISHOP || piece.piecetype == PieceType::QUEEN,
        ensures
            r == bishop_reach(self.board@, pc as int, tc as int, color_bool(piece.color)),
    {
        let white = piece.get_color_as_bool();
        let dx = GameState::abs_diff_x(pc, tc);
        let dy = GameState::abs_diff_y(pc, tc);
        if dx < 1 || dx != dy {
            return false;
        }
        self.path_is_clear(pc, tc) && self.free_or_enemy(tc, white)
    }

    /// Whether the rook `piece` (or a queen moving as a rook), standing on `pc`,
    /// may go to `tc`.
    fn rook_move_checker(&self, piece: ChessPiece, pc: usize, tc: usize) -> (r: bool)
        requires
            self.wf(),
            pc < 64,
            tc < 64,
            self.board@[pc as int] == Some(piece),
            piece.piecetype is ROOK || piece.piecetype == PieceType::QUEEN,
        ensures
            r == rook_reach(self.board@, pc as int, tc as int, color_bool(piece.color)),
    {
        let white = piece.get_color_as_bool();
        let dx = GameState::abs_diff_x(pc, tc);
        let dy = GameState::abs_diff_y(pc, tc);
        if dx > 0 && dy > 0 {
            return false;
        }
        self.path_is_clear(pc, tc) && self.free_or_enemy(tc, white)
    }

    /// Whether the queen `piece`, standing on `pc`, may go to `tc`.
    fn queen_move_checker(&self, piece: ChessPiece, pc: usize, tc: usize) -> (r: bool)
        requires
            self.wf(),
            pc < 64,
            tc < 64,
            self.board@[pc as int] == Some(piece),
            piece.piecetype == PieceType::QUEEN,
        ensures
            r == queen_reach(self.board@, pc as int, tc as int, color_bool(piece.color)),
    {
        self.bishop_move_checker(piece, pc, tc) || self.rook_move_checker(piece, pc, tc)
    }

    /// Whether the piece on `pc` may go to `tc` by an ordinary move (castling
    /// aside), whichever side is to move.
    pub(crate) fn piece_reaches(&self, pc: usize, tc: usize) -> (r: bool)
        requires
            self.wf(),
            pc < 64,
            tc < 64,
        ensures
            r == reach(self.board@, pc as int, tc as int),
    {
        match self.board[pc] {
            None => false,
            Some(piece) => match piece.piecetype {
                PieceType::PAWN(_) => self.pawn_move_checker(piece, pc, tc),
                PieceType::KING(_) => self.king_step_checker(piece, pc, tc),
                PieceType::KNIGHT => self.knight_move_checker(piece, pc, tc),
                PieceType::BISHOP => self.bishop_move_checker(piece, pc, tc),
                PieceType::ROOK(_) => self.rook_move_checker(piece, pc, tc),
                PieceType::QUEEN => self.queen_move_checker(piece, pc, tc),
                PieceType::NONE => false,
            },
        }
    }

    /// Whether some piece of `color` attacks `sq`, whichever side is to move.
    pub(crate) fn square_attacked(&self, sq: usize, color: Color) -> (r: bool)
        requires
            self.wf(),
            sq < 64,
        ensures
            r == attacked_by(self.board@, sq as int, color),
    {
        let mut s: usize = 0;
        while s < 64
            invariant
                self.wf(),
                sq < 64,
                s <= 64,
                forall|j: int|
                    0 <= j < s ==> !((#[trigger] self.board@[j]) is Some && self.board@[j]->0.color
                        == color && reach(self.board@, j, sq as int)),
            decreases 64 - s,
        {
            if let Some(p) = self.board[s] {
                if p.color == color && self.piece_reaches(s, sq) {
                    return true;
                }
            }
            s = s + 1;
        }
        false
    }

    /// Whether the king on `pc` may castle to `tc` (see `castle_ok`).
    fn castle_allowed(&self, pc: usize, tc: usize) -> (r: bool)
        requires
            self.wf(),
            pc < 64,
        ensures
            r == castle_ok(self@, pc as int, tc as int),
    {
        let k = match self.board[pc] {
            None => {
                return false;
            },
            Some(k) => k,
        };
        let white = k.get_color_as_bool();
        if self.checked_flag && self.checked_player.match_color_as_bool() == white {
            return false;
        }
        if k.piecetype != PieceType::KING(false) {
            return false;
        }
        let enemy = Color::match_bool_as_color(!white);
        let rook = ChessPiece::new(PieceType::ROOK(false), k.color);
        if tc == pc + 2 {
            if tc + 1 >= 64 || (tc + 1) / 8 != pc / 8 {
                return false;
            }
            match self.board[tc + 1] {
                Some(p) => {
                    if p != rook {
                        return false;
                    }
                },
                None => {
                    return false;
                },
            }
            self.board[pc + 1].is_none() && !self.square_attacked(pc + 1, enemy)
                && self.board[pc + 2].is_none() && !self.square_attacked(pc + 2, enemy)
        } else if pc >= 2 && tc == pc - 2 {
            if tc < 2 || (tc - 2) / 8 != pc / 8 {
                return false;
            }
            match self.board[tc - 2] {
                Some(p) => {
                    if p != rook {
                        return false;
                    }
                },
                None => {
                    return false;
                },
            }
            self.board[pc - 1].is_none() && !self.square_attacked(pc - 1, enemy)
                && self.board[pc - 2].is_none() && !self.square_attacked(pc - 2, enemy)
                && self.board[pc - 3].is_none()
        } else {
            false
        }
    }

    /// Whether the king `piece`, standing on `pc`, may go to `tc`: a step of
    /// two squares sideways is castling, decided by `castling_check` (which
    /// raises the pending-castle flag when it allows it); any other move is a
    /// one-square step.
    fn king_move_checker(&mut self, piece: ChessPiece, pc: usize, tc: usize) -> (r: bool)
        requires
            old(self).wf(),
            pc < 64,
            tc < 64,
            old(self).board@[pc as int] == Some(piece),
            piece.piecetype is KING,
        ensures
            r == if is_castle_attempt(old(self).board@, pc as int, tc as int) {
                castle_ok(old(self)@, pc as int, tc as int)
            } else {
                king_step(old(self).board@, pc as int, tc as int, color_bool(piece.color))
            },
            final(self)@ == with_castle_flag(
                old(self)@,
                old(self).castling_flag || (is_castle_attempt(old(self).board@, pc as int, tc as int)
                    && r),
            ),
    {
        if tc == pc + 2 || (pc >= 2 && tc == pc - 2) {
            self.castling_check(pc, tc)
        } else {
            self.king_step_checker(piece, pc, tc)
        }
    }

    /// Whether the move from `pc` to `tc` is legal; a legal castling move also
    /// raises the pending-castle flag.
    pub(crate) fn check_move(&mut self, pc: usize, tc: usize) -> (r: bool)
        requires
            old(self).wf(),
            pc < 64,
            tc < 64,
        ensures
            r == legal(old(self)@, pc as int, tc as int),
            final(self)@ == with_castle_flag(
                old(self)@,
                old(self).castling_flag || (is_castle_attempt(old(self).board@, pc as int, tc as int)
                    && r),
            ),
    {
        match self.board[pc] {
            None => false,
            Some(piece) => {
                if matches!(piece.piecetype, PieceType::KING(_)) {
                    self.king_move_checker(piece, pc, tc)
                } else {
                    self.piece_reaches(pc, tc)
                }
            },
        }
    }

    /// Whether the piece named by `piece_coord` may move to `target_coord`
    /// ("E2", "E4"): false where there is no piece. A legal castling move
    /// raises the pending-castle flag, which `do_valid_move` consumes.
    pub fn move_validity_checker(&mut self, piece_coord: &str, target_coord: &str) -> (r: bool)
        requires
            old(self).wf(),
            valid_coord(piece_coord@),
            valid_coord(target_coord@),
        ensures
            r == legal(old(self)@, coord_index(piece_coord@), coord_index(target_coord@)),
            final(self)@ == with_castle_flag(
                old(self)@,
                old(self).castling_flag || (is_castle_attempt(
                    old(self).board@,
                    coord_index(piece_coord@),
                    coord_index(target_coord@),
                ) && r),
            ),
    {
        let pc = GameState::coordinate_translator_str(piece_coord);
        let tc = GameState::coordinate_translator_str(target_coord);
        self.check_move(pc, tc)
    }

    /// Whether the king on `pc` may castle to `tc` (see `castle_ok`); if so
    /// the pending-castle flag is raised. Square `pc` must hold a king or
    /// nothing.
    pub fn castling_check(&mut self, pc: usize, tc: usize) -> (r: bool)
        requires
            old(self).wf(),
            pc < 64,
            old(self).board@[pc as int] is Some ==> old(self).board@[pc as int]->0.piecetype is KING,
        ensures
            r == castle_ok(old(self)@, pc as int, tc as int),
            final(self)@ == with_castle_flag(old(self)@, old(self).castling_flag || r),
    {
        let r = self.castle_allowed(pc, tc);
        if r {
            self.castling_flag = true;
        }
        r
    }

    /// The piece on the square that `coord` names, if any.
    pub fn get_piece_at(&self, coord: &str) -> (r: Option<ChessPiece>)
        requires
            valid_coord(coord@),
        ensures
            r == self.board@[coord_index(coord@)],
    {
        let index = GameState::coordinate_translator_str(coord);
        self.board[index]
    }
}

} // verus!
