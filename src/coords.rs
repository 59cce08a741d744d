//! Square arithmetic and the text form of squares ("A1" to "H8").
use vstd::prelude::*;

use crate::gamestate::GameState;
use crate::rules::{abs, file, rank};

verus! {

/// The file named by a letter, either case: 0 for A, up to 7 for H; -1 for
/// any other character.
pub open spec fn file_of_char(c: char) -> int {
    if c == 'A' || c == 'a' {
        0
    } else if c == 'B' || c == 'b' {
        1
    } else if c == 'C' || c == 'c' {
        2
    } else if c == 'D' || c == 'd' {
        3
    } else if c == 'E' || c == 'e' {
        4
    } else if c == 'F' || c == 'f' {
        5
    } else if c == 'G' || c == 'g' {
        6
    } else if c == 'H' || c == 'h' {
        7
    } else {
        -1
    }
}

/// The rank named by a digit: 0 for '1', up to 7 for '8'; -1 for any other
/// character.
pub open spec fn rank_of_char(c: char) -> int {
    if c == '1' {
        0
    } else if c == '2' {
        1
    } else if c == '3' {
        2
    } else if c == '4' {
        3
    } else if c == '5' {
        4
    } else if c == '6' {
        5
    } else if c == '7' {
        6
    } else if c == '8' {
        7
    } else {
        -1
    }
}

/// `s` names a square: a file letter (either case) followed by a rank digit.
pub open spec fn valid_coord(s: Seq<char>) -> bool {
    s.len() == 2 && file_of_char(s[0]) >= 0 && rank_of_char(s[1]) >= 0
}

/// The square that a valid coordinate names.
pub open spec fn coord_index(s: Seq<char>) -> int {
    rank_of_char(s[1]) * 8 + file_of_char(s[0])
}

/// The upper-case letter of a file.
pub open spec fn file_letter(f: int) -> char {
    seq!['A', 'B', 'C', 'D', 'E', 'F', 'G', 'H'][f]
}

/// The digit of a rank.
pub open spec fn rank_digit(r: int) -> char {
    seq!['1', '2', '3', '4', '5', '6', '7', '8'][r]
}

/// The text of a square: its file letter and its rank digit.
pub open spec fn square_text(i: int) -> Seq<char> {
    seq![file_letter(file(i)), rank_digit(rank(i))]
}

fn file_of(c: char) -> (r: i8)
    ensures
        r as int == file_of_char(c),
{
    match c {
        'A' | 'a' => 0,
        'B' | 'b' => 1,
        'C' | 'c' => 2,
        'D' | 'd' => 3,
        'E' | 'e' => 4,
        'F' | 'f' => 5,
        'G' | 'g' => 6,
        'H' | 'h' => 7,
        _ => -1,
    }
}

fn rank_of(c: char) -> (r: i8)
    ensures
        r as int == rank_of_char(c),
{
    match c {
        '1' => 0,
        '2' => 1,
        '3' => 2,
        '4' => 3,
        '5' => 4,
        '6' => 5,
        '7' => 6,
        '8' => 7,
        _ => -1,
    }
}

fn file_text(f: usize) -> (r: &'static str)
    requires
        f < 8,
    ensures
        r@ == seq![file_letter(f as int)],
{
    proof {
        reveal_strlit("A");
        reveal_strlit("B");
        reveal_strlit("C");
        reveal_strlit("D");
        reveal_strlit("E");
        reveal_strlit("F");
        reveal_strlit("G");
        reveal_strlit("H");
    }
    match f {
        0 => "A",
        1 => "B",
        2 => "C",
        3 => "D",
        4 => "E",
        5 => "F",
        6 => "G",
        _ => "H",
    }
}

fn rank_text(r: usize) -> (t: &'static str)
    requires
        r < 8,
    ensures
        t@ == seq![rank_digit(r as int)],
{
    proof {
        reveal_strlit("1");
        reveal_strlit("2");
        reveal_strlit("3");
        reveal_strlit("4");
        reveal_strlit("5");
        reveal_strlit("6");
        reveal_strlit("7");
        reveal_strlit("8");
    }
    match r {
        0 => "1",
        1 => "2",
        2 => "3",
        3 => "4",
        4 => "5",
        5 => "6",
        6 => "7",
        _ => "8",
    }
}

/// Whether `coord` names a square ("E2", "e2"); `coordinate_translator_str`
/// accepts exactly these.
pub fn is_valid_coordinate(coord: &str) -> (r: bool)
    ensures
        r == valid_coord(coord@),
{
    if coord.unicode_len() != 2 {
        return false;
    }
    file_of(coord.get_char(0)) >= 0 && rank_of(coord.get_char(1)) >= 0
}

impl GameState {
    /// The file of a square (0 for the A file).
    pub fn coord_x(coord: usize) -> (r: usize)
        ensures
            r as int == file(coord as int),
    {
        coord % 8
    }

    /// The rank of a square (0 for the first rank).
    pub fn coord_y(coord: usize) -> (r: usize)
        ensures
            r as int == rank(coord as int),
    {
        coord / 8
    }

    /// How many files apart two squares are.
    pub fn abs_diff_x(coord1: usize, coord2: usize) -> (r: usize)
        ensures
            r as int == abs(file(coord1 as int) - file(coord2 as int)),
    {
        let a = coord1 % 8;
        let b = coord2 % 8;
        if a >= b {
            a - b
        } else {
            b - a
        }
    }

    /// How many ranks apart two squares are.
    pub fn abs_diff_y(coord1: usize, coord2: usize) -> (r: usize)
        ensures
            r as int == abs(rank(coord1 as int) - rank(coord2 as int)),
    {
        let a = coord1 / 8;
        let b = coord2 / 8;
        if a >= b {
            a - b
        } else {
            b - a
        }
    }

    /// The file of `coord2` minus the file of `coord1`.
    pub fn diff_x(coord1: usize, coord2: usize) -> (r: isize)
        ensures
            r as int == file(coord2 as int) - file(coord1 as int),
    {
        (coord2 % 8) as isize - (coord1 % 8) as isize
    }

    /// The rank of `coord2` minus the rank of `coord1`.
    pub fn diff_y(coord1: usize, coord2: usize) -> (r: isize)
        ensures
            r as int == rank(coord2 as int) - rank(coord1 as int),
    {
        (coord2 / 8) as isize - (coord1 / 8) as isize
    }

    /// The square that a coordinate such as "E2" names (either case).
    /// Malformed text is a caller error.
    pub fn coordinate_translator_str(coord: &str) -> (r: usize)
        requires
            valid_coord(coord@),
        ensures
            r as int == coord_index(coord@),
            r < 64,
    {
        let f = file_of(coord.get_char(0));
        let k = rank_of(coord.get_char(1));
        (k as usize) * 8 + f as usize
    }

    /// The text of a square, such as "E2". The square must be on the board.
    pub fn coordinate_translator_usize(coord: usize) -> (r: String)
        requires
            coord < 64,
        ensures
            r@ == square_text(coord as int),
    {
        let mut s = String::from_str(file_text(coord % 8));
        s.append(rank_text(coord / 8));
        s
    }
}

} // verus!
