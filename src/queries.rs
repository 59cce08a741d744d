//! Move lists: every legal move from a square, or onto one.
use vstd::prelude::*;

use crate::coords::square_text;
use crate::gamestate::{GameState, position_wf, with_castle_flag};
use crate::piece::Color;
use crate::rules::{
    castles_from, castles_to, is_castle_attempt, lemma_squares_where, legal, legal_from, legal_to,
    legal_to_by, squares_where,
};

verus! {

/// The squares of a move list as integers.
pub open spec fn squares_of(v: Seq<usize>) -> Seq<int> {
    v.map_values(|t: usize| t as int)
}

/// Accepts every square.
pub open spec fn any_square() -> spec_fn(int) -> bool {
    |s: int| true
}

/// Accepts the squares that hold a piece of `color`.
pub open spec fn holds_color(pos_board: Seq<Option<crate::piece::ChessPiece>>, color: Color) -> spec_fn(
    int,
) -> bool {
    |s: int| pos_board[s] is Some && pos_board[s]->0.color == color
}

/// The text of a move list: each square's text followed by ", ".
pub open spec fn moves_text(ts: Seq<int>) -> Seq<char>
    decreases ts.len(),
{
    if ts.len() == 0 {
        Seq::empty()
    } else {
        moves_text(ts.drop_last()) + square_text(ts.last()) + seq![',', ' ']
    }
}

proof fn lemma_push_squares(v: Seq<usize>, t: usize)
    ensures
        squares_of(v.push(t)) == squares_of(v).push(t as int),
{
    assert(squares_of(v.push(t)) =~= squares_of(v).push(t as int));
}

impl GameState {
    /// Every square that the piece on `pc` may legally move to, in increasing
    /// order (empty where `pc` is empty). Legal castling moves among them
    /// raise the pending-castle flag.
    pub fn get_moves_from_tile(&mut self, pc: usize) -> (r: Vec<usize>)
        requires
            old(self).wf(),
            pc < 64,
        ensures
            squares_of(r@) == squares_where(64, legal_from(old(self)@, pc as int)),
            final(self)@ == with_castle_flag(
                old(self)@,
                old(self).castling_flag || castles_from(old(self)@, pc as int, 64),
            ),
    {
        let ghost pos0 = self@;
        let mut v: Vec<usize> = Vec::new();
        let mut tc: usize = 0;
        while tc < 64
            invariant
                tc <= 64,
                pc < 64,
                position_wf(pos0),
                self@ == with_castle_flag(pos0, pos0.castling_flag || castles_from(pos0, pc as int, tc as int)),
                squares_of(v@) == squares_where(tc as int, legal_from(pos0, pc as int)),
            decreases 64 - tc,
        {
            let ok = self.check_move(pc, tc);
            assert(legal(self@, pc as int, tc as int) == legal(pos0, pc as int, tc as int));
            if ok {
                proof {
                    lemma_push_squares(v@, tc);
                }
                v.push(tc);
            }
            assert(castles_from(pos0, pc as int, tc + 1) == (castles_from(pos0, pc as int, tc as int)
                || (is_castle_attempt(pos0.board, pc as int, tc as int) && legal(pos0, pc as int, tc as int))));
            tc = tc + 1;
        }
        v
    }

    /// Every square holding a piece that may legally move to `tile`, in
    /// increasing order. Legal castling moves among them raise the
    /// pending-castle flag.
    pub fn get_moves_to_tile(&mut self, tile: usize) -> (r: Vec<usize>)
        requires
            old(self).wf(),
            tile < 64,
        ensures
            squares_of(r@) == squares_where(64, legal_to(old(self)@, tile as int)),
            final(self)@ == with_castle_flag(
                old(self)@,
                old(self).castling_flag || castles_to(old(self)@, tile as int, 64, any_square()),
            ),
    {
        let ghost pos0 = self@;
        let mut v: Vec<usize> = Vec::new();
        let mut pc: usize = 0;
        while pc < 64
            invariant
                pc <= 64,
                tile < 64,
                position_wf(pos0),
                self@ == with_castle_flag(
                    pos0,
                    pos0.castling_flag || castles_to(pos0, tile as int, pc as int, any_square()),
                ),
                squares_of(v@) == squares_where(pc as int, legal_to(pos0, tile as int)),
            decreases 64 - pc,
        {
            let ok = self.check_move(pc, tile);
            assert(legal(self@, pc as int, tile as int) == legal(pos0, pc as int, tile as int));
            if ok {
                proof {
                    lemma_push_squares(v@, pc);
                }
                v.push(pc);
            }
            assert(castles_to(pos0, tile as int, pc + 1, any_square()) == (castles_to(
                pos0,
                tile as int,
                pc as int,
                any_square(),
            ) || (is_castle_attempt(pos0.board, pc as int, tile as int) && legal(
                pos0,
                pc as int,
                tile as int,
            ))));
            pc = pc + 1;
        }
        v
    }

    /// Every square holding a piece of `color` that may legally move to
    /// `tile`, in increasing order. Legal castling moves among them raise the
    /// pending-castle flag. `color` must be a real color.
    pub fn get_color_moves_to_tile(&mut self, tile: usize, color: Color) -> (r: Vec<usize>)
        requires
            old(self).wf(),
            tile < 64,
            color != Color::UNCOLORED,
        ensures
            squares_of(r@) == squares_where(64, legal_to_by(old(self)@, tile as int, color)),
            final(self)@ == with_castle_flag(
                old(self)@,
                old(self).castling_flag || castles_to(
                    old(self)@,
                    tile as int,
                    64,
                    holds_color(old(self).board@, color),
                ),
            ),
    {
        let ghost pos0 = self@;
        let mut v: Vec<usize> = Vec::new();
        let mut pc: usize = 0;
        while pc < 64
            invariant
                pc <= 64,
                tile < 64,
                color != Color::UNCOLORED,
                position_wf(pos0),
                self@ == with_castle_flag(
                    pos0,
                    pos0.castling_flag || castles_to(
                        pos0,
                        tile as int,
                        pc as int,
                        holds_color(pos0.board, color),
                    ),
                ),
                squares_of(v@) == squares_where(pc as int, legal_to_by(pos0, tile as int, color)),
            decreases 64 - pc,
        {
            let ghost before = self@;
            if let Some(piece) = self.board[pc] {
                if piece.get_color_as_bool() == color.match_color_as_bool() {
                    let ok = self.check_move(pc, tile);
                    assert(legal(before, pc as int, tile as int) == legal(
                        pos0,
                        pc as int,
                        tile as int,
                    ));
                    if ok {
                        proof {
                            lemma_push_squares(v@, pc);
                        }
                        v.push(pc);
                    }
                }
            }
            assert(castles_to(pos0, tile as int, pc + 1, holds_color(pos0.board, color)) == (
            castles_to(pos0, tile as int, pc as int, holds_color(pos0.board, color)) || (
            holds_color(pos0.board, color)(pc as int) && is_castle_attempt(
                pos0.board,
                pc as int,
                tile as int,
            ) && legal(pos0, pc as int, tile as int))));
            pc = pc + 1;
        }
        v
    }

    /// The legal moves from `pc` as text: each target square, such as "E4",
    /// followed by ", ". Legal castling moves among them raise the
    /// pending-castle flag.
    pub fn get_moves_from_tile_as_string(&mut self, pc: usize) -> (r: String)
        requires
            old(self).wf(),
            pc < 64,
        ensures
            r@ == moves_text(squares_where(64, legal_from(old(self)@, pc as int))),
            final(self)@ == with_castle_flag(
                old(self)@,
                old(self).castling_flag || castles_from(old(self)@, pc as int, 64),
            ),
    {
        let v = self.get_moves_from_tile(pc);
        let ghost ts = squares_of(v@);
        let mut returner = String::new();
        let mut i: usize = 0;
        proof {
            reveal_strlit(", ");
            lemma_squares_where(64, legal_from(old(self)@, pc as int));
            assert forall|j: int| 0 <= j < v.len() implies #[trigger] v@[j] < 64 by {
                assert(ts[j] == v@[j] as int);
                assert(ts.contains(ts[j]));
            }
        }
        while i < v.len()
            invariant
                i <= v.len(),
                ts == squares_of(v@),
                forall|j: int| 0 <= j < v.len() ==> #[trigger] v@[j] < 64,
                returner@ == moves_text(ts.take(i as int)),
            decreases v.len() - i,
        {
            let text = GameState::coordinate_translator_usize(v[i]);
            returner.append(text.as_str());
            returner.append(", ");
            proof {
                reveal_strlit(", ");
                assert(ts.take(i + 1).drop_last() =~= ts.take(i as int));
                assert(ts.take(i + 1).last() == v@[i as int] as int);
                assert(", "@ =~= seq![',', ' ']);
            }
            i = i + 1;
        }
        assert(ts.take(v.len() as int) =~= ts);
        returner
    }
}

} // verus!
