//! Squares of the board as text: a file letter and a rank digit.

use vstd::prelude::*;

use crate::error::RelayError;
use crate::number::{char_of_digit, digit_char};
use crate::text::{chars_of, string_of};

verus! {

/// The number of files whose letter the notation has: `a` to `h`.
pub const FILES: u32 = 8;

/// The number of ranks whose digit the notation has: `1` to `9`.
pub const RANKS: u32 = 9;

/// The zero-based file that the letter `c` names, in either case.
pub open spec fn file_index(c: char) -> Option<u32> {
    if 'a' <= c && c <= 'h' {
        Some((c as int - 'a' as int) as u32)
    } else if 'A' <= c && c <= 'H' {
        Some((c as int - 'A' as int) as u32)
    } else {
        None
    }
}

/// The zero-based rank that the digit `c` names; the digit `0` names none.
pub open spec fn rank_index(c: char) -> Option<u32> {
    if '1' <= c && c <= '9' {
        Some((c as int - '1' as int) as u32)
    } else {
        None
    }
}

/// The coordinates that the two-character square `s` names.
pub open spec fn square_coords(s: Seq<char>) -> Option<(u32, u32)> {
    if s.len() == 2 && file_index(s[0]) is Some && rank_index(s[1]) is Some {
        Some((file_index(s[0])->0, rank_index(s[1])->0))
    } else {
        None
    }
}

/// The lowercase letter of file `x`.
pub open spec fn file_letter(x: nat) -> char {
    if x == 0 {
        'a'
    } else if x == 1 {
        'b'
    } else if x == 2 {
        'c'
    } else if x == 3 {
        'd'
    } else if x == 4 {
        'e'
    } else if x == 5 {
        'f'
    } else if x == 6 {
        'g'
    } else {
        'h'
    }
}

/// The uppercase letter of file `x`.
pub open spec fn upper_file_letter(x: nat) -> char {
    if x == 0 {
        'A'
    } else if x == 1 {
        'B'
    } else if x == 2 {
        'C'
    } else if x == 3 {
        'D'
    } else if x == 4 {
        'E'
    } else if x == 5 {
        'F'
    } else if x == 6 {
        'G'
    } else {
        'H'
    }
}

/// Whether `(x, y)` is a coordinate that the notation can write.
pub open spec fn on_board(x: u32, y: u32) -> bool {
    x < FILES && y < RANKS
}

/// The character that stands for a coordinate that the notation has no
/// letter or digit for. It is neither a file letter nor a rank digit.
pub const UNKNOWN: char = '?';

/// The character of file `x`: its lowercase letter, or the unknown mark
/// past the last file.
pub open spec fn file_char(x: u32) -> char {
    if x < FILES {
        file_letter(x as nat)
    } else {
        UNKNOWN
    }
}

/// The character of file `x` in uppercase, or the unknown mark past the
/// last file.
pub open spec fn upper_file_char(x: u32) -> char {
    if x < FILES {
        upper_file_letter(x as nat)
    } else {
        UNKNOWN
    }
}

/// The character of rank `y`: the digit of its one-based number, or the
/// unknown mark past the last rank.
pub open spec fn rank_char(y: u32) -> char {
    if y < RANKS {
        digit_char((y + 1) as nat)
    } else {
        UNKNOWN
    }
}

/// The square `(x, y)` as text: the character of its file in lowercase,
/// then the character of its rank. The text has two characters for every
/// coordinate; off the board it holds the unknown mark.
pub open spec fn square_text(x: u32, y: u32) -> Seq<char> {
    seq![file_char(x), rank_char(y)]
}

/// The square `(x, y)` as text with an uppercase file letter.
pub open spec fn upper_square_text(x: u32, y: u32) -> Seq<char> {
    seq![upper_file_char(x), rank_char(y)]
}

/// Reads a square from its two characters.
pub fn coords_of_chars(s: &Vec<char>) -> (r: Option<(u32, u32)>)
    ensures
        r == square_coords(s@),
{
    if s.len() != 2 {
        return None;
    }
    let f = s[0];
    let d = s[1];
    let x: u32 = if f >= 'a' && f <= 'h' {
        f as u32 - 97
    } else if f >= 'A' && f <= 'H' {
        f as u32 - 65
    } else {
        return None;
    };
    if d >= '1' && d <= '9' {
        Some((x, d as u32 - 49))
    } else {
        None
    }
}

/// Appends the text of square `(x, y)` to `out`, with the file letter in
/// uppercase if `upper` is set.
pub fn push_square(out: &mut Vec<char>, x: u32, y: u32, upper: bool)
    ensures
        final(out)@ == old(out)@ + (if upper {
            upper_square_text(x, y)
        } else {
            square_text(x, y)
        }),
{
    let lower: char = if x == 0 {
        'a'
    } else if x == 1 {
        'b'
    } else if x == 2 {
        'c'
    } else if x == 3 {
        'd'
    } else if x == 4 {
        'e'
    } else if x == 5 {
        'f'
    } else if x == 6 {
        'g'
    } else if x == 7 {
        'h'
    } else {
        UNKNOWN
    };
    let letter: char = if upper && x < FILES {
        upper_of(lower)
    } else {
        lower
    };
    out.push(letter);
    out.push(
        if y < RANKS {
            char_of_digit(y + 1)
        } else {
            UNKNOWN
        },
    );
}

/// The uppercase form of a lowercase file letter.
fn upper_of(c: char) -> (u: char)
    requires
        'a' <= c && c <= 'h',
    ensures
        u == upper_file_letter((c as int - 'a' as int) as nat),
{
    if c == 'a' {
        'A'
    } else if c == 'b' {
        'B'
    } else if c == 'c' {
        'C'
    } else if c == 'd' {
        'D'
    } else if c == 'e' {
        'E'
    } else if c == 'f' {
        'F'
    } else if c == 'g' {
        'G'
    } else {
        'H'
    }
}

/// Reads a square such as `a1` or `C6`: a file letter `a` to `h` in either
/// case, then a rank digit `1` to `9`. Anything else is a parse error.
pub fn coords_from_square(value: &str) -> (r: Result<(u32, u32), RelayError>)
    ensures
        r == (match square_coords(value@) {
            Some(p) => Ok::<(u32, u32), RelayError>(p),
            None => Err(RelayError::ParseError),
        }),
{
    let chars = chars_of(value);
    match coords_of_chars(&chars) {
        Some(p) => Ok(p),
        None => Err(RelayError::ParseError),
    }
}

/// Writes the square `(x, y)` as its lowercase file letter and one-based
/// rank digit. Every coordinate is written in two characters: a file past
/// `h` or a rank past `9` is written as `?`, which no square reads back.
pub fn square_from_coords(x: u32, y: u32) -> (s: String)
    ensures
        s@ == square_text(x, y),
        s@.len() == 2,
{
    let mut out: Vec<char> = Vec::new();
    push_square(&mut out, x, y, false);
    string_of(&out)
}

/// Whether `(x, y)` can be written as a square.
pub fn is_on_board(x: u32, y: u32) -> (b: bool)
    ensures
        b == on_board(x, y),
{
    x < FILES && y < RANKS
}

/// The text of a coordinate off the board is not the text of any square.
pub proof fn lemma_off_board_is_no_square(x: u32, y: u32)
    requires
        !on_board(x, y),
    ensures
        square_coords(square_text(x, y)) is None,
        square_coords(upper_square_text(x, y)) is None,
{
}

/// Reading back the text of a square gives its coordinates, whichever the
/// case of the file letter.
pub proof fn lemma_square_round_trip(x: u32, y: u32)
    requires
        on_board(x, y),
    ensures
        square_coords(square_text(x, y)) == Some((x, y)),
        square_coords(upper_square_text(x, y)) == Some((x, y)),
{
}

} // verus!
