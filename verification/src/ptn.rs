//! The algebraic notation for moves that the engine speaks.

use vstd::prelude::*;

use crate::error::RelayError;
use crate::game::{well_formed, Direction, GameMove, MoveView, PieceType};
use crate::number::{
    char_of_digit, decimal, digit_char, digit_of, digit_value, is_digit, push_decimal,
};
use crate::square::{
    coords_of_chars, lemma_square_round_trip, on_board, push_square, square_coords, square_text,
};
use crate::text::{chars_of, string_of};

verus! {

/// The number of pieces that a spread with these drops moves.
pub open spec fn total(drops: Seq<u32>) -> nat
    decreases drops.len(),
{
    if drops.len() == 0 {
        0
    } else {
        total(drops.drop_last()) + drops.last() as nat
    }
}

/// The sum over a prefix of the drops is at most the sum over all of them.
pub proof fn lemma_total_prefix(drops: Seq<u32>, k: int)
    requires
        0 <= k <= drops.len(),
    ensures
        total(drops.take(k)) <= total(drops),
    decreases drops.len(),
{
    if k == drops.len() {
        assert(drops.take(k) =~= drops);
    } else {
        lemma_total_prefix(drops.drop_last(), k);
        assert(drops.drop_last().take(k) =~= drops.take(k));
    }
}

/// The character that marks a direction in algebraic notation.
pub open spec fn direction_mark(d: Direction) -> char {
    match d {
        Direction::North => '+',
        Direction::South => '-',
        Direction::East => '>',
        Direction::West => '<',
    }
}

/// The direction that a character marks in algebraic notation.
pub open spec fn marked_direction(c: char) -> Option<Direction> {
    if c == '+' {
        Some(Direction::North)
    } else if c == '-' {
        Some(Direction::South)
    } else if c == '>' {
        Some(Direction::East)
    } else if c == '<' {
        Some(Direction::West)
    } else {
        None
    }
}

/// The marker that algebraic notation puts before the square of a placed
/// piece: none for a flatstone.
pub open spec fn piece_mark(p: PieceType) -> Seq<char> {
    match p {
        PieceType::Flatstone => Seq::empty(),
        PieceType::StandingStone => seq!['S'],
        PieceType::Capstone => seq!['C'],
    }
}

/// Whether algebraic notation starts with a marker: a piece letter or a
/// pickup count.
pub open spec fn has_mark(s: Seq<char>) -> bool {
    s.len() > 0 && (s[0] == 'F' || s[0] == 'S' || s[0] == 'C' || is_digit(s[0]))
}

/// The piece kind that the first character of algebraic notation names.
pub open spec fn marked_piece(s: Seq<char>) -> PieceType {
    if s.len() > 0 && s[0] == 'S' {
        PieceType::StandingStone
    } else if s.len() > 0 && s[0] == 'C' {
        PieceType::Capstone
    } else {
        PieceType::Flatstone
    }
}

/// The pickup count that the first character of algebraic notation gives:
/// one unless it is a digit.
pub open spec fn marked_pickup(s: Seq<char>) -> u32 {
    if s.len() > 0 && is_digit(s[0]) {
        digit_value(s[0]) as u32
    } else {
        1
    }
}

/// The values of the digits at the start of `s`, up to its first character
/// that is no digit.
pub open spec fn leading_digits(s: Seq<char>) -> Seq<u32>
    decreases s.len(),
{
    if s.len() == 0 || !is_digit(s[0]) {
        Seq::empty()
    } else {
        seq![digit_value(s[0]) as u32] + leading_digits(s.drop_first())
    }
}

/// The move that algebraic notation `s` writes, if it writes one: an
/// optional marker, a square, and for a spread a direction mark and the
/// drops, one digit each. Without drop digits the whole pickup is dropped on
/// the next square. What follows the drop digits is not read.
pub open spec fn ptn_move(s: Seq<char>) -> Option<MoveView> {
    let body = if has_mark(s) {
        s.skip(1)
    } else {
        s
    };
    if body.len() < 2 {
        None
    } else {
        match square_coords(body.take(2)) {
            None => None,
            Some(at) => if body.len() == 2 {
                Some(MoveView::Place { x: at.0, y: at.1, piece_type: marked_piece(s) })
            } else {
                match marked_direction(body[2]) {
                    None => None,
                    Some(direction) => {
                        let digits = leading_digits(body.skip(3));
                        Some(
                            MoveView::Spread {
                                x: at.0,
                                y: at.1,
                                direction,
                                drops: if digits.len() == 0 {
                                    seq![marked_pickup(s)]
                                } else {
                                    digits
                                },
                            },
                        )
                    },
                }
            },
        }
    }
}

/// The drops of a spread as digits, one for each.
pub open spec fn drop_digits(drops: Seq<u32>) -> Seq<char> {
    Seq::new(drops.len(), |i: int| digit_char(drops[i] as nat))
}

/// Whether algebraic notation can write the move: its square has a letter
/// and a digit, the pieces of a spread can be counted in 32 bits, and where
/// a spread has several drops each of them is a single digit.
pub open spec fn ptn_writable(m: MoveView) -> bool {
    match m {
        MoveView::Place { x, y, .. } => on_board(x, y),
        MoveView::Spread { x, y, drops, .. } => {
            &&& on_board(x, y)
            &&& total(drops) <= u32::MAX
            &&& drops.len() > 1 ==> forall|i: int| 0 <= i < drops.len() ==> #[trigger] drops[i] < 10
        },
    }
}

/// The move in algebraic notation. A placement is the piece marker and the
/// square. A spread is the number of pieces moved if that is more than one,
/// the square, the direction mark and, if there are several drops, one digit
/// for each.
pub open spec fn ptn_text(m: MoveView) -> Seq<char> {
    match m {
        MoveView::Place { x, y, piece_type } => piece_mark(piece_type) + square_text(x, y),
        MoveView::Spread { x, y, direction, drops } => {
            (if total(drops) > 1 {
                decimal(total(drops))
            } else {
                Seq::empty()
            }) + square_text(x, y) + seq![direction_mark(direction)] + (if drops.len() > 1 {
                drop_digits(drops)
            } else {
                Seq::empty()
            })
        },
    }
}

impl GameMove {
    /// Reads a move in algebraic notation, such as `a1`, `Sc5`, `b4+` or
    /// `5b2>122`.
    pub fn from_ptn(value: &str) -> (r: Result<GameMove, RelayError>)
        ensures
            match ptn_move(value@) {
                Some(m) => r is Ok && r->Ok_0@ == m,
                None => r == Err::<GameMove, RelayError>(RelayError::ParseError),
            },
    {
        let chars = chars_of(value);
        GameMove::from_ptn_chars(&chars)
    }

    /// Reads a move in algebraic notation from its characters.
    pub fn from_ptn_chars(chars: &Vec<char>) -> (r: Result<GameMove, RelayError>)
        ensures
            match ptn_move(chars@) {
                Some(m) => r is Ok && r->Ok_0@ == m,
                None => r == Err::<GameMove, RelayError>(RelayError::ParseError),
            },
    {
        let n = chars.len();
        if n == 0 {
            return Err(RelayError::ParseError);
        }
        let first = chars[0];
        let piece_type = if first == 'S' {
            PieceType::StandingStone
        } else if first == 'C' {
            PieceType::Capstone
        } else {
            PieceType::Flatstone
        };
        let digit = digit_of(first);
        let pickup: u32 = match digit {
            Some(d) => d,
            None => 1,
        };
        let start: usize = if first == 'F' || first == 'S' || first == 'C' || digit.is_some() {
            1
        } else {
            0
        };
        let ghost body = chars@.skip(start as int);
        proof {
            assert(chars@.skip(0) =~= chars@);
        }
        if n - start < 2 {
            return Err(RelayError::ParseError);
        }
        let mut square: Vec<char> = Vec::new();
        square.push(chars[start]);
        square.push(chars[start + 1]);
        let (x, y) = match coords_of_chars(&square) {
            Some(at) => at,
            None => {
                return Err(RelayError::ParseError);
            },
        };
        if n - start == 2 {
            return Ok(GameMove::Place { x, y, piece_type });
        }
        let mark = chars[start + 2];
        let direction = if mark == '+' {
            Direction::North
        } else if mark == '-' {
            Direction::South
        } else if mark == '>' {
            Direction::East
        } else if mark == '<' {
            Direction::West
        } else {
            return Err(RelayError::ParseError);
        };
        let ghost tail = body.skip(3);
        let mut drops: Vec<u32> = Vec::new();
        let mut i: usize = start + 3;
        let mut reading: bool = true;
        proof {
            assert(tail.skip(0) =~= tail);
        }
        while reading && i < n
            invariant
                start + 3 <= i <= n,
                n == chars.len(),
                tail == chars@.skip(start as int).skip(3),
                reading ==> leading_digits(tail) == drops@ + leading_digits(
                    tail.skip(i - start - 3),
                ),
                !reading ==> leading_digits(tail) == drops@,
            decreases n - i + (if reading { 1nat } else { 0nat }),
        {
            let ghost rest = tail.skip(i - start - 3);
            proof {
                assert(rest.drop_first() =~= tail.skip(i + 1 - start - 3));
            }
            match digit_of(chars[i]) {
                Some(d) => {
                    drops.push(d);
                    i += 1;
                },
                None => {
                    reading = false;
                },
            }
        }
        if drops.len() == 0 {
            drops.push(pickup);
        }
        Ok(GameMove::Spread { x, y, direction, drops })
    }

    /// Whether the move can be written in algebraic notation.
    pub fn is_ptn_writable(&self) -> (b: bool)
        ensures
            b == ptn_writable(self@),
    {
        match self {
            GameMove::Place { x, y, .. } => *x < 8 && *y < 9,
            GameMove::Spread { x, y, drops, .. } => {
                if !(*x < 8 && *y < 9) {
                    return false;
                }
                let mut sum: u32 = 0;
                let mut digits: bool = true;
                let mut i: usize = 0;
                while i < drops.len()
                    invariant
                        i <= drops.len(),
                        self@ is Spread,
                        self@->drops == drops@,
                        on_board(self@->Spread_x, self@->Spread_y),
                        sum == total(drops@.take(i as int)),
                        digits == (forall|j: int| 0 <= j < i ==> #[trigger] drops@[j] < 10),
                    decreases drops.len() - i,
                {
                    proof {
                        assert(drops@.take(i + 1).drop_last() =~= drops@.take(i as int));
                    }
                    let d = drops[i];
                    if d > u32::MAX - sum {
                        proof {
                            lemma_total_prefix(drops@, i + 1);
                        }
                        return false;
                    }
                    sum = sum + d;
                    if d >= 10 {
                        digits = false;
                    }
                    i += 1;
                }
                proof {
                    assert(drops@.take(i as int) =~= drops@);
                }
                drops.len() <= 1 || digits
            },
        }
    }

    /// Writes the move in algebraic notation.
    pub fn to_ptn(&self) -> (s: String)
        requires
            ptn_writable(self@),
        ensures
            s@ == ptn_text(self@),
    {
        let out = self.ptn_chars();
        string_of(&out)
    }

    /// The characters of the move in algebraic notation.
    pub fn ptn_chars(&self) -> (out: Vec<char>)
        requires
            ptn_writable(self@),
        ensures
            out@ == ptn_text(self@),
    {
        let mut out: Vec<char> = Vec::new();
        match self {
            GameMove::Place { x, y, piece_type } => {
                match piece_type {
                    PieceType::Flatstone => {},
                    PieceType::StandingStone => {
                        out.push('S');
                    },
                    PieceType::Capstone => {
                        out.push('C');
                    },
                }
                push_square(&mut out, *x, *y, false);
            },
            GameMove::Spread { x, y, direction, drops } => {
                let mut sum: u32 = 0;
                let mut i: usize = 0;
                while i < drops.len()
                    invariant
                        i <= drops.len(),
                        sum == total(drops@.take(i as int)),
                        total(drops@) <= u32::MAX,
                    decreases drops.len() - i,
                {
                    proof {
                        assert(drops@.take(i + 1).drop_last() =~= drops@.take(i as int));
                        lemma_total_prefix(drops@, i + 1);
                    }
                    sum = sum + drops[i];
                    i += 1;
                }
                proof {
                    assert(drops@.take(i as int) =~= drops@);
                }
                if sum > 1 {
                    push_decimal(&mut out, sum as u64);
                }
                push_square(&mut out, *x, *y, false);
                out.push(
                    match direction {
                        Direction::North => '+',
                        Direction::South => '-',
                        Direction::East => '>',
                        Direction::West => '<',
                    },
                );
                let ghost stem = out@;
                if drops.len() > 1 {
                    let mut j: usize = 0;
                    while j < drops.len()
                        invariant
                            j <= drops.len(),
                            forall|k: int| 0 <= k < drops.len() ==> #[trigger] drops@[k] < 10,
                            out@ == stem + drop_digits(drops@).take(j as int),
                        decreases drops.len() - j,
                    {
                        out.push(char_of_digit(drops[j]));
                        j += 1;
                    }
                }
            },
        }
        out
    }
}

/// Whether algebraic notation determines the move, so that reading its
/// text gives the move back. A spread must have a drop, move at most nine
/// pieces, and a single drop must not be empty: the text has one digit for
/// the pickup count and none for a count of zero.
pub open spec fn ptn_exact(m: MoveView) -> bool {
    match m {
        MoveView::Place { x, y, .. } => on_board(x, y),
        MoveView::Spread { x, y, drops, .. } => {
            &&& on_board(x, y)
            &&& drops.len() >= 1
            &&& total(drops) <= 9
            &&& drops.len() == 1 ==> drops[0] >= 1
        },
    }
}

/// Algebraic notation determines every move of the game that is on the
/// board and moves at most nine pieces.
pub proof fn lemma_well_formed_ptn_exact(m: MoveView)
    requires
        well_formed(m),
        ptn_writable(m),
        m is Spread ==> total(m->drops) <= 9,
    ensures
        ptn_exact(m),
{
}

/// A spread that algebraic notation writes has at least one drop.
pub proof fn lemma_ptn_move_has_drop(s: Seq<char>)
    ensures
        ptn_move(s) is Some && ptn_move(s)->0 is Spread ==> ptn_move(s)->0->drops.len() >= 1,
{
}

/// No drop of a spread is larger than the number of pieces it moves.
pub proof fn lemma_drop_at_most_total(drops: Seq<u32>, i: int)
    requires
        0 <= i < drops.len(),
    ensures
        drops[i] <= total(drops),
    decreases drops.len(),
{
    if i < drops.len() - 1 {
        lemma_drop_at_most_total(drops.drop_last(), i);
    }
}

/// Reading the digits of single-digit drops gives the drops back.
pub proof fn lemma_leading_digits_of_drops(drops: Seq<u32>)
    requires
        forall|i: int| 0 <= i < drops.len() ==> #[trigger] drops[i] < 10,
    ensures
        leading_digits(drop_digits(drops)) == drops,
    decreases drops.len(),
{
    if drops.len() > 0 {
        assert(drop_digits(drops).drop_first() =~= drop_digits(drops.drop_first()));
        lemma_leading_digits_of_drops(drops.drop_first());
    }
}

/// Reading the algebraic notation of a move gives the move back, for every
/// move that the notation determines.
pub proof fn lemma_ptn_round_trip(m: MoveView)
    requires
        ptn_exact(m),
    ensures
        ptn_writable(m),
        ptn_move(ptn_text(m)) == Some(m),
{
    let text = ptn_text(m);
    match m {
        MoveView::Place { x, y, .. } => {
            lemma_square_round_trip(x, y);
        },
        MoveView::Spread { x, y, drops, .. } => {
            lemma_square_round_trip(x, y);
            assert forall|i: int| 0 <= i < drops.len() implies #[trigger] drops[i] < 10 by {
                lemma_drop_at_most_total(drops, i);
            }
            let digits = if drops.len() > 1 {
                drop_digits(drops)
            } else {
                Seq::empty()
            };
            let body = if has_mark(text) {
                text.skip(1)
            } else {
                text
            };
            assert(body.skip(3) =~= digits);
            if drops.len() > 1 {
                lemma_leading_digits_of_drops(drops);
            } else {
                assert(total(drops.drop_last()) == 0);
                assert(seq![marked_pickup(text)] =~= drops);
            }
        },
    }
}

} // verus!
