//! Properties of the rules that hold for every position.
use vstd::prelude::*;

use crate::coords::{coord_index, square_text, valid_coord};
use crate::gamestate::{Position, board_wf, king_of_at, position_wf, with_castle_flag};
use crate::piece::{ChessPiece, Color, PieceType};
use crate::play::{
    after_move, bkc_after, castle_rook, committed_board, moved_board, moved_kind, first_check, gives_check, king_square,
    mover_still_attacked, move_reverted, next_color, scan_check, was_in_check, wkc_after,
};
use crate::rules::{
    castle_ok, enemy_color, file_dist, is_castle_attempt, legal, on_board, rank_dist, reach,
    white_at,
};

verus! {

/// Every square survives a trip through its text: the text of square `sq`
/// is a valid coordinate, and it names `sq` again.
pub proof fn lemma_coordinate_round_trip(sq: int)
    requires
        0 <= sq < 64,
    ensures
        valid_coord(square_text(sq)),
        coord_index(square_text(sq)) == sq,
{
    assert(square_text(sq)[0] == seq!['A', 'B', 'C', 'D', 'E', 'F', 'G', 'H'][sq % 8]);
    assert(square_text(sq)[1] == seq!['1', '2', '3', '4', '5', '6', '7', '8'][sq / 8]);
}

/// A pawn may cover two ranks only if it has not moved, the move goes
/// straight ahead in its own direction, and both the square it passes and the
/// square it lands on are empty.
pub proof fn lemma_pawn_double_step(pos: Position, pc: int, tc: int)
    requires
        position_wf(pos),
        on_board(pc),
        pos.board[pc] is Some,
        pos.board[pc]->0.piecetype is PAWN,
        rank_dist(pc, tc) == 2,
        legal(pos, pc, tc),
    ensures
        pos.board[pc]->0.piecetype == PieceType::PAWN(false),
        tc == pc + 16 || tc == pc - 16,
        tc == pc + 16 <==> pos.board[pc]->0.color == Color::WHITE,
        pos.board[(pc + tc) / 2] is None,
        pos.board[tc] is None,
{
}

/// Once a pawn's move is committed, the pawn stands on its new square marked
/// as moved, and no move of two ranks from there is legal.
pub proof fn lemma_moved_pawn_has_no_double_step(pos: Position, pc: int, tc: int, next: int)
    requires
        position_wf(pos),
        on_board(pc),
        on_board(tc),
        pc != tc,
        pos.board[pc] is Some,
        pos.board[pc]->0.piecetype is PAWN,
        !move_reverted(pos, pc, tc),
        rank_dist(tc, next) == 2,
    ensures
        after_move(pos, pc, tc).board[tc] == Some(
            ChessPiece { piecetype: PieceType::PAWN(true), color: pos.board[pc]->0.color },
        ),
        !legal(after_move(pos, pc, tc), tc, next),
{
}

/// A move by a side in check that leaves its king attacked is taken back:
/// the position is exactly as before the move (history included), except
/// that a pending castle is dropped.
pub proof fn lemma_self_check_rejected(pos: Position, pc: int, tc: int)
    requires
        position_wf(pos),
        on_board(pc),
        on_board(tc),
        pos.board[pc] is Some,
        was_in_check(pos),
        mover_still_attacked(pos, pc, tc),
    ensures
        move_reverted(pos, pc, tc),
        after_move(pos, pc, tc) == with_castle_flag(pos, false),
        after_move(pos, pc, tc).board == pos.board,
{
}

/// Check detection agrees with the legal moves: when the other side's cached
/// king square holds a piece, the piece on `i` gives check exactly when
/// moving onto that square is among its legal moves.
pub proof fn lemma_check_matches_legal_moves(pos: Position, i: int)
    requires
        position_wf(pos),
        on_board(i),
        pos.board[i] is Some,
        ({
            let k = if white_at(pos.board, i) {
                pos.bkc
            } else {
                pos.wkc
            };
            on_board(k) && pos.board[k] is Some
        }),
    ensures
        gives_check(pos.board, pos.wkc, pos.bkc, i) == legal(
            pos,
            i,
            if white_at(pos.board, i) {
                pos.bkc
            } else {
                pos.wkc
            },
        ),
{
}

/// Castling king-side, once found legal and pending, by the side to move:
/// the king lands two squares right marked as moved, the rook from the corner
/// stands at its other side marked as moved, both home squares are empty, the
/// pending flag is cleared and the turn passes.
pub proof fn lemma_castle_king_side(pos: Position, pc: int)
    requires
        position_wf(pos),
        pos.castling_flag,
        castle_ok(pos, pc, pc + 2),
        pos.board[pc]->0.color == pos.current_player,
    ensures
        !move_reverted(pos, pc, pc + 2),
        after_move(pos, pc, pc + 2).board[pc + 2] == Some(
            ChessPiece { piecetype: PieceType::KING(true), color: pos.current_player },
        ),
        after_move(pos, pc, pc + 2).board[pc + 1] == Some(
            ChessPiece { piecetype: PieceType::ROOK(true), color: pos.current_player },
        ),
        after_move(pos, pc, pc + 2).board[pc] is None,
        after_move(pos, pc, pc + 2).board[pc + 3] is None,
        !after_move(pos, pc, pc + 2).castling_flag,
        after_move(pos, pc, pc + 2).current_player == next_color(pos.current_player),
{
}

/// A knight never wraps around the board's edge: every legal knight move
/// changes file by one and rank by two, or file by two and rank by one.
pub proof fn lemma_knight_moves_are_l_shaped(pos: Position, pc: int, tc: int)
    requires
        position_wf(pos),
        on_board(pc),
        pos.board[pc] is Some,
        pos.board[pc]->0.piecetype == PieceType::KNIGHT,
        legal(pos, pc, tc),
    ensures
        (file_dist(pc, tc) == 1 && rank_dist(pc, tc) == 2) || (file_dist(pc, tc) == 2 && rank_dist(
            pc,
            tc,
        ) == 1),
{
}

/// After a committed move the other side is to move; after a move that is
/// taken back the same side still is.
pub proof fn lemma_turn_alternation(pos: Position, pc: int, tc: int)
    requires
        position_wf(pos),
        pos.current_player != Color::UNCOLORED,
    ensures
        !move_reverted(pos, pc, tc) ==> after_move(pos, pc, tc).current_player == next_color(
            pos.current_player,
        ) && after_move(pos, pc, tc).current_player != pos.current_player,
        move_reverted(pos, pc, tc) ==> after_move(pos, pc, tc).current_player == pos.current_player,
{
}

/// The scan from square `i` on reports a side exactly when some square at
/// `i` or above gives check, and then the side that one attacks.
proof fn lemma_first_check_witness(board: Seq<Option<ChessPiece>>, wkc: int, bkc: int, i: int)
    requires
        0 <= i,
    ensures
        first_check(board, wkc, bkc, i) is Some ==> exists|s: int|
            i <= s < 64 && #[trigger] gives_check(board, wkc, bkc, s) && first_check(
                board,
                wkc,
                bkc,
                i,
            )->0 == (if white_at(board, s) {
                Color::BLACK
            } else {
                Color::WHITE
            }),
        first_check(board, wkc, bkc, i) is None ==> forall|s: int|
            i <= s < 64 ==> !#[trigger] gives_check(board, wkc, bkc, s),
    decreases 64 - i,
{
    if i < 64 && !gives_check(board, wkc, bkc, i) {
        lemma_first_check_witness(board, wkc, bkc, i + 1);
    }
}

/// After a scan, a raised check flag names a real color some piece of the
/// other color attacks the cached king square of; a lowered flag comes with
/// `UNCOLORED`, and then no piece attacks the other side's cached king square.
pub proof fn lemma_check_names_an_attacked_king(board: Seq<Option<ChessPiece>>, wkc: int, bkc: int)
    requires
        board_wf(board),
    ensures
        scan_check(board, wkc, bkc).0 ==> {
            let c = scan_check(board, wkc, bkc).1;
            &&& c != Color::UNCOLORED
            &&& exists|s: int|
                0 <= s < 64 && (#[trigger] board[s]) is Some && board[s]->0.color == enemy_color(c)
                    && reach(board, s, king_square(c, wkc, bkc))
        },
        !scan_check(board, wkc, bkc).0 ==> scan_check(board, wkc, bkc).1 == Color::UNCOLORED
            && forall|s: int| 0 <= s < 64 ==> !#[trigger] gives_check(board, wkc, bkc, s),
{
    lemma_first_check_witness(board, wkc, bkc, 0);
    if first_check(board, wkc, bkc, 0) is Some {
        let s = choose|s: int|
            0 <= s < 64 && #[trigger] gives_check(board, wkc, bkc, s) && first_check(
                board,
                wkc,
                bkc,
                0,
            )->0 == (if white_at(board, s) {
                Color::BLACK
            } else {
                Color::WHITE
            });
        assert(board[s] is Some);
    }
}

/// `k` is where the only king of `color` stands, or 64 when there is none.
pub open spec fn sole_king(board: Seq<Option<ChessPiece>>, color: Color, k: int) -> bool {
    &&& 0 <= k <= 64
    &&& k < 64 ==> king_of_at(board, color, k)
    &&& forall|s: int| 0 <= s < 64 && #[trigger] king_of_at(board, color, s) ==> s == k
}

/// On the board after a committed move, a king on a square other than the
/// target stood there before the move.
proof fn lemma_committed_kings(pos: Position, pc: int, tc: int, color: Color, s: int)
    requires
        on_board(pc),
        on_board(tc),
        0 <= s < 64,
        pos.board.len() == 64,
        pos.board[pc] is Some,
    ensures
        king_of_at(committed_board(pos, pc, tc), color, s) ==> (s == tc && pos.board[pc]->0.piecetype is KING
            && pos.board[pc]->0.color == color) || (s != tc && s != pc && king_of_at(pos.board, color, s)),
{
    let p = pos.board[pc]->0;
    let m = moved_board(pos, pc, tc);
    let marked = if moved_kind(p.piecetype) != p.piecetype {
        m.update(tc, Some(ChessPiece { piecetype: moved_kind(p.piecetype), color: p.color }))
    } else {
        m
    };
    assert(king_of_at(castle_rook(marked, pc, tc), color, s) ==> king_of_at(marked, color, s));
}

/// The cached king squares stay right across `do_valid_move`: if before the
/// move each cache holds the only king of its color (or 64 when there is
/// none), and a pending castle is only ever consumed by a legal castling
/// move, the same holds afterwards, whether the move was committed or taken
/// back, and also when it captured a king.
pub proof fn lemma_king_squares_follow_kings(pos: Position, pc: int, tc: int)
    requires
        position_wf(pos),
        on_board(pc),
        on_board(tc),
        pc != tc,
        pos.board[pc] is Some,
        sole_king(pos.board, Color::WHITE, pos.wkc),
        sole_king(pos.board, Color::BLACK, pos.bkc),
        pos.castling_flag && is_castle_attempt(pos.board, pc, tc) ==> castle_ok(pos, pc, tc),
    ensures
        sole_king(after_move(pos, pc, tc).board, Color::WHITE, after_move(pos, pc, tc).wkc),
        sole_king(after_move(pos, pc, tc).board, Color::BLACK, after_move(pos, pc, tc).bkc),
{
    let p = pos.board[pc]->0;
    if !move_reverted(pos, pc, tc) {
        let b = committed_board(pos, pc, tc);
        if pos.castling_flag && p.piecetype is KING {
            if tc == pc + 2 {
                assert(pos.board[pc + 3] is Some);
            } else if tc == pc - 2 {
                assert(pos.board[pc - 4] is Some);
            }
        }
        assert forall|s: int| 0 <= s < 64 && #[trigger] king_of_at(b, Color::WHITE, s) implies s
            == wkc_after(pos, pc, tc) by {
            lemma_committed_kings(pos, pc, tc, Color::WHITE, s);
            if s != tc {
                assert(king_of_at(pos.board, Color::WHITE, s));
                if king_of_at(pos.board, Color::WHITE, pc) {
                    assert(pc == s);
                }
                if king_of_at(pos.board, Color::WHITE, tc) {
                    assert(tc == s);
                }
            }
        }
        assert forall|s: int| 0 <= s < 64 && #[trigger] king_of_at(b, Color::BLACK, s) implies s
            == bkc_after(pos, pc, tc) by {
            lemma_committed_kings(pos, pc, tc, Color::BLACK, s);
            if s != tc {
                assert(king_of_at(pos.board, Color::BLACK, s));
                if king_of_at(pos.board, Color::BLACK, pc) {
                    assert(pc == s);
                }
                if king_of_at(pos.board, Color::BLACK, tc) {
                    assert(tc == s);
                }
            }
        }
    }
}

/// The two-rank advance of a pawn, both ways: going two ranks straight ahead in its own direction is legal exactly
/// when the pawn has not moved and both the square it passes and the square
/// it lands on are empty.
pub proof fn lemma_pawn_two_rank_rule(pos: Position, pc: int)
    requires
        position_wf(pos),
        on_board(pc),
        pos.board[pc] is Some,
        pos.board[pc]->0.piecetype is PAWN,
        on_board(pc + pawn_step(pos.board[pc]->0.color) * 2),
    ensures
        ({
            let d = pawn_step(pos.board[pc]->0.color);
            legal(pos, pc, pc + 2 * d) == (pos.board[pc]->0.piecetype == PieceType::PAWN(false)
                && pos.board[pc + d] is None && pos.board[pc + 2 * d] is None)
        }),
{
}

/// How far one rank forward is, in squares, for a pawn of `color`.
pub open spec fn pawn_step(color: Color) -> int {
    if color == Color::WHITE {
        8
    } else {
        -8
    }
}

} // verus!
