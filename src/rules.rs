//! The rules of movement, stated over the board as a sequence of squares.
use vstd::prelude::*;

use crate::gamestate::Position;
use crate::piece::{ChessPiece, Color, PieceType, color_bool};

verus! {

/// The file (column) of a square: 0 for the A file.
pub open spec fn file(i: int) -> int {
    i % 8
}

/// The rank (row) of a square: 0 for the first rank.
pub open spec fn rank(i: int) -> int {
    i / 8
}

pub open spec fn abs(x: int) -> int {
    if x < 0 {
        -x
    } else {
        x
    }
}

/// How many files apart two squares are.
pub open spec fn file_dist(a: int, b: int) -> int {
    abs(file(a) - file(b))
}

/// How many ranks apart two squares are.
pub open spec fn rank_dist(a: int, b: int) -> int {
    abs(rank(a) - rank(b))
}

pub open spec fn on_board(i: int) -> bool {
    0 <= i < 64
}

/// The edge-wrap guard. A step from `c` that lands on `t` is refused when `c`
/// lies on the A file and `t` is a multiple of 7, or `c` is a multiple of 7
/// and `t` lies on the A file; square 0 is let through in both cases. A
/// `c` off the board is refused.
pub open spec fn edge_ok(c: int, t: int) -> bool {
    if !on_board(c) {
        false
    } else if c % 8 == 0 && t % 7 == 0 {
        t == 0
    } else if c % 7 == 0 && t % 8 == 0 {
        c == 0
    } else {
        true
    }
}

/// The color of the piece on square `i`, as a boolean (white is `true`).
pub open spec fn white_at(board: Seq<Option<ChessPiece>>, i: int) -> bool {
    color_bool(board[i]->0.color)
}

/// Square `t` is empty or holds a piece of the other side than `white`.
pub open spec fn target_ok(board: Seq<Option<ChessPiece>>, t: int, white: bool) -> bool {
    board[t] is None || white_at(board, t) != white
}

/// Square `t` holds a piece of the other side than `white`.
pub open spec fn enemy_at(board: Seq<Option<ChessPiece>>, t: int, white: bool) -> bool {
    board[t] is Some && white_at(board, t) != white
}

/// The value `k` steps from `a` toward `b` (or `a` itself when they are equal).
pub open spec fn toward(a: int, b: int, k: int) -> int {
    if b > a {
        a + k
    } else if b < a {
        a - k
    } else {
        a
    }
}

/// The number of steps along a straight or diagonal line from `a` to `b`.
pub open spec fn line_len(a: int, b: int) -> int {
    if file_dist(a, b) > rank_dist(a, b) {
        file_dist(a, b)
    } else {
        rank_dist(a, b)
    }
}

/// Every square strictly between `a` and `b` on the line joining them is empty.
pub open spec fn between_clear(board: Seq<Option<ChessPiece>>, a: int, b: int) -> bool {
    forall|k: int|
        1 <= k < line_len(a, b) ==> (#[trigger] board[toward(rank(a), rank(b), k) * 8 + toward(
            file(a),
            file(b),
            k,
        )]) is None
}

/// A pawn of color `white` standing on `pc` may go to `tc`. Like every
/// movement rule here it does not depend on whose turn it is, so that the
/// squares a pawn may move to are exactly the squares it counts as attacking
/// in check detection; choosing which side's pieces to move is up to the
/// caller. It steps one rank forward onto an empty
/// square; two ranks forward if it has not moved and both squares ahead are
/// empty; or one square diagonally forward onto an enemy piece, subject to the
/// edge-wrap guard. In every case it moves at most one file and two ranks.
pub open spec fn pawn_reach(
    board: Seq<Option<ChessPiece>>,
    pc: int,
    tc: int,
    white: bool,
    moved: bool,
) -> bool {
    let d = if white {
        1int
    } else {
        -1int
    };
    &&& file_dist(pc, tc) <= 1
    &&& rank_dist(pc, tc) <= 2
    &&& {
        ||| tc == pc + 8 * d && board[tc] is None
        ||| tc == pc + 16 * d && !moved && board[pc + 8 * d] is None && board[tc] is None
        ||| (tc == pc + 7 * d || tc == pc + 9 * d) && edge_ok(pc, tc) && enemy_at(board, tc, white)
    }
}

/// The edge-wrap guard along the path of a knight's jump from `pc` to `tc`.
pub open spec fn knight_path_ok(pc: int, tc: int) -> bool {
    if tc == pc + 17 || tc == pc + 15 {
        edge_ok(pc + 16, tc)
    } else if tc == pc - 17 || tc == pc - 15 {
        edge_ok(pc - 16, tc)
    } else if tc == pc + 10 {
        edge_ok(pc + 9, tc) && edge_ok(pc + 10, tc)
    } else if tc == pc + 6 {
        edge_ok(pc + 7, tc) && edge_ok(pc + 6, tc)
    } else if tc == pc - 10 {
        edge_ok(pc - 9, tc) && edge_ok(pc - 10, tc)
    } else if tc == pc - 6 {
        edge_ok(pc - 7, tc) && edge_ok(pc - 6, tc)
    } else {
        true
    }
}

/// A knight jumps one file and two ranks, or two files and one rank, passes
/// the edge-wrap guard on its path, and lands on an empty or enemy square.
pub open spec fn knight_reach(board: Seq<Option<ChessPiece>>, pc: int, tc: int, white: bool) -> bool {
    &&& (file_dist(pc, tc) == 1 && rank_dist(pc, tc) == 2) || (file_dist(pc, tc) == 2
        && rank_dist(pc, tc) == 1)
    &&& knight_path_ok(pc, tc)
    &&& target_ok(board, tc, white)
}

/// A bishop moves along a diagonal over empty squares onto an empty or enemy
/// square.
pub open spec fn bishop_reach(board: Seq<Option<ChessPiece>>, pc: int, tc: int, white: bool) -> bool {
    &&& file_dist(pc, tc) >= 1
    &&& file_dist(pc, tc) == rank_dist(pc, tc)
    &&& between_clear(board, pc, tc)
    &&& target_ok(board, tc, white)
}

/// A rook moves along a file or a rank over empty squares onto an empty or
/// enemy square.
pub open spec fn rook_reach(board: Seq<Option<ChessPiece>>, pc: int, tc: int, white: bool) -> bool {
    &&& file_dist(pc, tc) == 0 || rank_dist(pc, tc) == 0
    &&& between_clear(board, pc, tc)
    &&& target_ok(board, tc, white)
}

/// A queen moves as a bishop or as a rook.
pub open spec fn queen_reach(board: Seq<Option<ChessPiece>>, pc: int, tc: int, white: bool) -> bool {
    bishop_reach(board, pc, tc, white) || rook_reach(board, pc, tc, white)
}

/// A king steps to one of the eight neighbouring squares (straight steps are
/// guarded from `pc`, diagonal ones from the square one rank over), onto an
/// empty or enemy square, moving at most one file and one rank.
pub open spec fn king_step(board: Seq<Option<ChessPiece>>, pc: int, tc: int, white: bool) -> bool {
    &&& if tc == pc + 8 || tc == pc + 1 || tc == pc - 1 || tc == pc - 8 {
        edge_ok(pc, tc)
    } else if tc == pc + 7 || tc == pc + 9 {
        edge_ok(pc + 8, tc)
    } else if tc == pc - 7 || tc == pc - 9 {
        edge_ok(pc - 8, tc)
    } else {
        false
    }
    &&& target_ok(board, tc, white)
    &&& file_dist(pc, tc) <= 1
    &&& rank_dist(pc, tc) <= 1
}

/// The piece on `pc` may go to `tc` by an ordinary move (anything but
/// castling), whichever side is to move. This is also what the piece attacks.
pub open spec fn reach(board: Seq<Option<ChessPiece>>, pc: int, tc: int) -> bool {
    &&& on_board(pc)
    &&& on_board(tc)
    &&& board[pc] is Some
    &&& {
        let p = board[pc]->0;
        let white = color_bool(p.color);
        match p.piecetype {
            PieceType::PAWN(moved) => pawn_reach(board, pc, tc, white, moved),
            PieceType::KNIGHT => knight_reach(board, pc, tc, white),
            PieceType::BISHOP => bishop_reach(board, pc, tc, white),
            PieceType::ROOK(_) => rook_reach(board, pc, tc, white),
            PieceType::QUEEN => queen_reach(board, pc, tc, white),
            PieceType::KING(_) => king_step(board, pc, tc, white),
            PieceType::NONE => false,
        }
    }
}

/// Some piece of `color` attacks `sq`.
pub open spec fn attacked_by(board: Seq<Option<ChessPiece>>, sq: int, color: Color) -> bool {
    exists|s: int|
        0 <= s < 64 && (#[trigger] board[s]) is Some && board[s]->0.color == color && reach(
            board,
            s,
            sq,
        )
}

/// The other real color.
pub open spec fn enemy_color(c: Color) -> Color {
    if c == Color::WHITE {
        Color::BLACK
    } else {
        Color::WHITE
    }
}

/// Square `i` holds an unmoved rook of `color`.
pub open spec fn unmoved_rook_at(board: Seq<Option<ChessPiece>>, i: int, color: Color) -> bool {
    board[i] == Some(ChessPiece { piecetype: PieceType::ROOK(false), color })
}

/// Square `i` is empty and no enemy of `color` attacks it.
pub open spec fn safe_empty(board: Seq<Option<ChessPiece>>, i: int, color: Color) -> bool {
    board[i] is None && !attacked_by(board, i, enemy_color(color))
}

/// The king on `pc` may castle to `tc`: it has not moved, its side is not in
/// check, `tc` is two files toward an unmoved rook of its color on the
/// king's rank (on `tc + 1` or `tc - 2`), every square between king and rook is empty, and no enemy
/// piece attacks either square the king crosses. Castling moves of the enemy
/// are not counted, as they never capture.
pub open spec fn castle_ok(pos: Position, pc: int, tc: int) -> bool {
    let board = pos.board;
    &&& on_board(pc)
    &&& board[pc] is Some
    &&& {
        let k = board[pc]->0;
        &&& !(pos.checked_flag && color_bool(pos.checked_player) == color_bool(k.color))
        &&& k.piecetype == PieceType::KING(false)
        &&& if tc == pc + 2 {
            &&& tc + 1 < 64
            &&& rank(tc + 1) == rank(pc)
            &&& unmoved_rook_at(board, tc + 1, k.color)
            &&& safe_empty(board, pc + 1, k.color)
            &&& safe_empty(board, pc + 2, k.color)
        } else if tc == pc - 2 {
            &&& tc >= 2
            &&& rank(tc - 2) == rank(pc)
            &&& unmoved_rook_at(board, tc - 2, k.color)
            &&& safe_empty(board, pc - 1, k.color)
            &&& safe_empty(board, pc - 2, k.color)
            &&& board[pc - 3] is None
        } else {
            false
        }
    }
}

/// The move asks for castling: a king moving two squares sideways.
pub open spec fn is_castle_attempt(board: Seq<Option<ChessPiece>>, pc: int, tc: int) -> bool {
    &&& board[pc] is Some
    &&& board[pc]->0.piecetype is KING
    &&& (tc == pc + 2 || tc == pc - 2)
}

/// The move from `pc` to `tc` is legal in `pos`: castling where the move asks
/// for it, an ordinary move otherwise.
pub open spec fn legal(pos: Position, pc: int, tc: int) -> bool {
    &&& on_board(pc)
    &&& on_board(tc)
    &&& pos.board[pc] is Some
    &&& if is_castle_attempt(pos.board, pc, tc) {
        castle_ok(pos, pc, tc)
    } else {
        reach(pos.board, pc, tc)
    }
}

} // verus!

verus! {

/// The squares below `n` that satisfy `f`, in increasing order.
pub open spec fn squares_where(n: int, f: spec_fn(int) -> bool) -> Seq<int>
    decreases n,
{
    if n <= 0 {
        Seq::empty()
    } else if f(n - 1) {
        squares_where(n - 1, f).push(n - 1)
    } else {
        squares_where(n - 1, f)
    }
}

/// The squares that the piece on `pc` may legally move to.
pub open spec fn legal_from(pos: Position, pc: int) -> spec_fn(int) -> bool {
    |t: int| legal(pos, pc, t)
}

/// The squares from which a piece may legally move to `tc`.
pub open spec fn legal_to(pos: Position, tc: int) -> spec_fn(int) -> bool {
    |s: int| legal(pos, s, tc)
}

/// The squares from which a piece of `color` may legally move to `tc`.
pub open spec fn legal_to_by(pos: Position, tc: int, color: Color) -> spec_fn(int) -> bool {
    |s: int| pos.board[s] is Some && pos.board[s]->0.color == color && legal(pos, s, tc)
}

/// Among the squares below `n`, some `t` makes `pc` to `t` a legal castling
/// move.
pub open spec fn castles_from(pos: Position, pc: int, n: int) -> bool {
    exists|t: int| 0 <= t < n && is_castle_attempt(pos.board, pc, t) && #[trigger] legal(pos, pc, t)
}

/// Among the squares below `n`, some `s` accepted by `f` makes `s` to `tc` a
/// legal castling move.
pub open spec fn castles_to(pos: Position, tc: int, n: int, f: spec_fn(int) -> bool) -> bool {
    exists|s: int| 0 <= s < n && f(s) && is_castle_attempt(pos.board, s, tc) && #[trigger] legal(pos, s, tc)
}

/// Each square below `n` is in `squares_where(n, f)` exactly when it
/// satisfies `f`, and the list is strictly increasing.
pub proof fn lemma_squares_where(n: int, f: spec_fn(int) -> bool)
    ensures
        forall|t: int| #[trigger] squares_where(n, f).contains(t) <==> 0 <= t < n && f(t),
        forall|i: int, j: int|
            0 <= i < j < squares_where(n, f).len() ==> #[trigger] squares_where(n, f)[i]
                < #[trigger] squares_where(n, f)[j],
    decreases n,
{
    if n > 0 {
        lemma_squares_where(n - 1, f);
        let s = squares_where(n - 1, f);
        if f(n - 1) {
            assert forall|t: int| #[trigger] s.push(n - 1).contains(t) <==> 0 <= t < n && f(t) by {
                if s.push(n - 1).contains(t) {
                    let i = choose|i: int| 0 <= i < s.push(n - 1).len() && #[trigger] s.push(n - 1)[i] == t;
                    if i < s.len() {
                        assert(s.contains(t));
                    }
                }
                if 0 <= t < n - 1 && f(t) {
                    assert(s.contains(t));
                    let i = choose|i: int| 0 <= i < s.len() && #[trigger] s[i] == t;
                    assert(s.push(n - 1)[i] == t);
                }
                if t == n - 1 {
                    assert(s.push(n - 1)[s.len() as int] == t);
                }
            }
            assert forall|i: int, j: int|
                0 <= i < j < s.push(n - 1).len() implies #[trigger] s.push(n - 1)[i]
                < #[trigger] s.push(n - 1)[j] by {
                if j == s.len() {
                    assert(s.contains(s[i]));
                }
            }
        }
    }
}

} // verus!
