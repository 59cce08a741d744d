//! The names of colors and piece kinds that setup commands use.
use vstd::prelude::*;

use crate::piece::{Color, PieceType};

verus! {

/// The code of `c` with ASCII upper-case letters folded to lower case.
pub open spec fn lower_code(c: char) -> u32 {
    if 65 <= (c as u32) && (c as u32) <= 90 {
        ((c as u32) + 32) as u32
    } else {
        c as u32
    }
}

/// `s` spells the lower-case `word`, ignoring ASCII case.
pub open spec fn spells(s: Seq<char>, word: Seq<char>) -> bool {
    &&& s.len() == word.len()
    &&& forall|i: int| 0 <= i < s.len() ==> lower_code(#[trigger] s[i]) == word[i] as u32
}

/// The color that a name such as "Black" or "WHITE" gives.
pub open spec fn color_named(s: Seq<char>) -> Option<Color> {
    if spells(s, seq!['b', 'l', 'a', 'c', 'k']) {
        Some(Color::BLACK)
    } else if spells(s, seq!['w', 'h', 'i', 't', 'e']) {
        Some(Color::WHITE)
    } else {
        None
    }
}

/// The kind, unmoved, that a name such as "Pawn" or "queen" gives.
pub open spec fn kind_named(s: Seq<char>) -> Option<PieceType> {
    if spells(s, seq!['p', 'a', 'w', 'n']) {
        Some(PieceType::PAWN(false))
    } else if spells(s, seq!['r', 'o', 'o', 'k']) {
        Some(PieceType::ROOK(false))
    } else if spells(s, seq!['k', 'i', 'n', 'g']) {
        Some(PieceType::KING(false))
    } else if spells(s, seq!['b', 'i', 's', 'h', 'o', 'p']) {
        Some(PieceType::BISHOP)
    } else if spells(s, seq!['k', 'n', 'i', 'g', 'h', 't']) {
        Some(PieceType::KNIGHT)
    } else if spells(s, seq!['q', 'u', 'e', 'e', 'n']) {
        Some(PieceType::QUEEN)
    } else {
        None
    }
}

fn lower_code_of(c: char) -> (r: u32)
    ensures
        r == lower_code(c),
{
    let k = c as u32;
    if 65 <= k && k <= 90 {
        k + 32
    } else {
        k
    }
}

/// Whether `s` spells the lower-case `word`, ignoring ASCII case.
fn spells_word(s: &str, word: &str) -> (r: bool)
    ensures
        r == spells(s@, word@),
{
    let n = s.unicode_len();
    if n != word.unicode_len() {
        return false;
    }
    let mut i: usize = 0;
    while i < n
        invariant
            n == s@.len(),
            n == word@.len(),
            i <= n,
            forall|j: int| 0 <= j < i ==> lower_code(#[trigger] s@[j]) == word@[j] as u32,
        decreases n - i,
    {
        if lower_code_of(s.get_char(i)) != word.get_char(i) as u32 {
            return false;
        }
        i = i + 1;
    }
    true
}

/// The color named by `s` ("black" or "white" in any case), if any.
pub fn color_from_name(s: &str) -> (r: Option<Color>)
    ensures
        r == color_named(s@),
{
    proof {
        reveal_strlit("black");
        reveal_strlit("white");
    }
    if spells_word(s, "black") {
        Some(Color::BLACK)
    } else if spells_word(s, "white") {
        Some(Color::WHITE)
    } else {
        None
    }
}

/// The unmoved piece kind named by `s` ("pawn", "rook", "knight", "bishop",
/// "queen" or "king" in any case), if any.
pub fn piece_type_from_name(s: &str) -> (r: Option<PieceType>)
    ensures
        r == kind_named(s@),
{
    proof {
        reveal_strlit("pawn");
        reveal_strlit("rook");
        reveal_strlit("king");
        reveal_strlit("bishop");
        reveal_strlit("knight");
        reveal_strlit("queen");
    }
    if spells_word(s, "pawn") {
        Some(PieceType::PAWN(false))
    } else if spells_word(s, "rook") {
        Some(PieceType::ROOK(false))
    } else if spells_word(s, "king") {
        Some(PieceType::KING(false))
    } else if spells_word(s, "bishop") {
        Some(PieceType::BISHOP)
    } else if spells_word(s, "knight") {
        Some(PieceType::KNIGHT)
    } else if spells_word(s, "queen") {
        Some(PieceType::QUEEN)
    } else {
        None
    }
}

} // verus!
