//! The wire notation of the server for moves.

use vstd::prelude::*;

use crate::error::RelayError;
use crate::game::{well_formed, Direction, GameMove, MoveView, PieceType};
use crate::number::{
    decimal, lemma_decimal_is_word, lemma_decimal_value, lemma_u32_round_trip, number_word,
    parse_u32, push_decimal, u32_of,
};
use crate::square::{
    coords_of_chars, lemma_square_round_trip, on_board, push_square, square_coords,
    upper_square_text, FILES, RANKS,
};
use crate::text::{
    all_words, chars_of, is_space, is_word, lemma_words_of_line, line_of, line_string, push_str,
    push_word, split_words, word_views, words,
};

verus! {

/// The first word of every line that the server sends about game `id`.
pub open spec fn game_tag(id: u32) -> Seq<char> {
    "Game#"@ + decimal(id as nat)
}

/// The square on which a spread from `(x, y)` over `count` squares ends, if
/// that square is on the board.
pub open spec fn spread_target(x: u32, y: u32, direction: Direction, count: nat) -> Option<
    (u32, u32),
> {
    match direction {
        Direction::North => if y + count < RANKS {
            Some((x, (y + count) as u32))
        } else {
            None
        },
        Direction::South => if count <= y {
            Some((x, (y - count) as u32))
        } else {
            None
        },
        Direction::East => if x + count < FILES {
            Some(((x + count) as u32, y))
        } else {
            None
        },
        Direction::West => if count <= x {
            Some(((x - count) as u32, y))
        } else {
            None
        },
    }
}

/// The direction from `(x, y)` to `(tx, ty)`, where exactly one of the two
/// coordinates differs.
pub open spec fn heading(x: u32, y: u32, tx: u32, ty: u32) -> Option<Direction> {
    if tx == x && ty > y {
        Some(Direction::North)
    } else if tx == x && ty < y {
        Some(Direction::South)
    } else if ty == y && tx > x {
        Some(Direction::East)
    } else if ty == y && tx < x {
        Some(Direction::West)
    } else {
        None
    }
}

/// The word that the wire notation puts behind the square of a placed
/// piece: none for a flatstone.
pub open spec fn piece_suffix(p: PieceType) -> Seq<Seq<char>> {
    match p {
        PieceType::Flatstone => Seq::empty(),
        PieceType::StandingStone => seq![seq!['W']],
        PieceType::Capstone => seq![seq!['C']],
    }
}

/// The drops of a spread as decimal words.
pub open spec fn drop_words(drops: Seq<u32>) -> Seq<Seq<char>> {
    Seq::new(drops.len(), |i: int| decimal(drops[i] as nat))
}

/// The numbers that the words `ws` write, if each of them writes one.
pub open spec fn numbers(ws: Seq<Seq<char>>) -> Option<Seq<u32>> {
    if forall|i: int| 0 <= i < ws.len() ==> (#[trigger] u32_of(ws[i])) is Some {
        Some(Seq::new(ws.len(), |i: int| u32_of(ws[i])->0))
    } else {
        None
    }
}

/// Whether the wire notation can write the move: its square is on the
/// board, and so is the square on which a spread ends.
pub open spec fn wire_writable(m: MoveView) -> bool {
    match m {
        MoveView::Place { x, y, .. } => on_board(x, y),
        MoveView::Spread { x, y, direction, drops } => {
            &&& on_board(x, y)
            &&& spread_target(x, y, direction, drops.len()) is Some
        },
    }
}

/// The words of the line that tells the server of the move in game `id`. A
/// spread names the square it starts from and the square it ends on, which
/// lies as many squares away as there are drops.
pub open spec fn wire_words(m: MoveView, id: u32) -> Seq<Seq<char>> {
    match m {
        MoveView::Place { x, y, piece_type } => seq![
            game_tag(id),
            seq!['P'],
            upper_square_text(x, y),
        ] + piece_suffix(piece_type),
        MoveView::Spread { x, y, direction, drops } => {
            let target = spread_target(x, y, direction, drops.len())->0;
            seq![
                game_tag(id),
                seq!['M'],
                upper_square_text(x, y),
                upper_square_text(target.0, target.1),
            ] + drop_words(drops)
        },
    }
}

/// The line that tells the server of the move in game `id`.
pub open spec fn wire_text(m: MoveView, id: u32) -> Seq<char> {
    line_of(wire_words(m, id))
}

/// The move that the words of a server line write. The first word is not
/// read. A placement is `P`, a square and at most a piece word. A spread is
/// `M`, two squares that differ in exactly one coordinate, and the drops, of
/// which there is at least one.
pub open spec fn wire_move_of_words(p: Seq<Seq<char>>) -> Option<MoveView> {
    if p.len() < 3 {
        None
    } else if p[1] == seq!['P'] {
        match square_coords(p[2]) {
            None => None,
            Some(at) => if p.len() == 3 {
                Some(MoveView::Place { x: at.0, y: at.1, piece_type: PieceType::Flatstone })
            } else if p[3] == seq!['W'] {
                Some(MoveView::Place { x: at.0, y: at.1, piece_type: PieceType::StandingStone })
            } else if p[3] == seq!['C'] {
                Some(MoveView::Place { x: at.0, y: at.1, piece_type: PieceType::Capstone })
            } else {
                None
            },
        }
    } else if p[1] == seq!['M'] && p.len() >= 5 {
        match (square_coords(p[2]), square_coords(p[3])) {
            (Some(from), Some(to)) => match (
                heading(from.0, from.1, to.0, to.1),
                numbers(p.skip(4)),
            ) {
                (Some(direction), Some(drops)) => Some(
                    MoveView::Spread { x: from.0, y: from.1, direction, drops },
                ),
                _ => None,
            },
            _ => None,
        }
    } else {
        None
    }
}

/// The move that a server line writes, if it writes one.
pub open spec fn wire_move(s: Seq<char>) -> Option<MoveView> {
    wire_move_of_words(words(s))
}

/// Whether `w` is the single character `c`.
fn is_letter(w: &Vec<char>, c: char) -> (b: bool)
    ensures
        b == (w@ == seq![c]),
{
    let b = w.len() == 1 && w[0] == c;
    proof {
        if b {
            assert(w@ =~= seq![c]);
        }
    }
    b
}

impl GameMove {
    /// Reads a move from a line of the server, such as `Game#1 P A1`,
    /// `Game#1 P C6 C` or `Game#1 M B4 F4 2 1 2 1`.
    pub fn from_playtak(value: &str) -> (r: Result<GameMove, RelayError>)
        ensures
            match wire_move(value@) {
                Some(m) => r is Ok && r->Ok_0@ == m,
                None => r == Err::<GameMove, RelayError>(RelayError::ParseError),
            },
    {
        let chars = chars_of(value);
        let parts = split_words(&chars);
        GameMove::from_playtak_words(&parts)
    }

    /// Reads a move from the words of a line of the server.
    pub fn from_playtak_words(parts: &Vec<Vec<char>>) -> (r: Result<GameMove, RelayError>)
        ensures
            match wire_move_of_words(word_views(parts@)) {
                Some(m) => r is Ok && r->Ok_0@ == m,
                None => r == Err::<GameMove, RelayError>(RelayError::ParseError),
            },
    {
        let ghost p = word_views(parts@);
        if parts.len() < 3 {
            return Err(RelayError::ParseError);
        }
        if is_letter(&parts[1], 'P') {
            let (x, y) = match coords_of_chars(&parts[2]) {
                Some(at) => at,
                None => {
                    return Err(RelayError::ParseError);
                },
            };
            if parts.len() == 3 {
                return Ok(GameMove::Place { x, y, piece_type: PieceType::Flatstone });
            }
            if is_letter(&parts[3], 'W') {
                Ok(GameMove::Place { x, y, piece_type: PieceType::StandingStone })
            } else if is_letter(&parts[3], 'C') {
                Ok(GameMove::Place { x, y, piece_type: PieceType::Capstone })
            } else {
                Err(RelayError::ParseError)
            }
        } else if is_letter(&parts[1], 'M') && parts.len() >= 5 {
            let (x, y) = match coords_of_chars(&parts[2]) {
                Some(at) => at,
                None => {
                    return Err(RelayError::ParseError);
                },
            };
            let (tx, ty) = match coords_of_chars(&parts[3]) {
                Some(at) => at,
                None => {
                    return Err(RelayError::ParseError);
                },
            };
            let direction = if tx == x && ty > y {
                Direction::North
            } else if tx == x && ty < y {
                Direction::South
            } else if ty == y && tx > x {
                Direction::East
            } else if ty == y && tx < x {
                Direction::West
            } else {
                return Err(RelayError::ParseError);
            };
            let ghost rest = p.skip(4);
            let mut drops: Vec<u32> = Vec::new();
            let mut i: usize = 4;
            while i < parts.len()
                invariant
                    4 <= i <= parts.len(),
                    p == word_views(parts@),
                    rest == p.skip(4),
                    drops.len() == i - 4,
                    forall|j: int| 0 <= j < i - 4 ==> u32_of(#[trigger] rest[j]) == Some(drops@[j]),
                    numbers(rest) is None ==> wire_move_of_words(p) is None,
                decreases parts.len() - i,
            {
                proof {
                    assert(rest[i - 4] == parts@[i as int]@);
                }
                match parse_u32(&parts[i]) {
                    Some(d) => {
                        drops.push(d);
                    },
                    None => {
                        return Err(RelayError::ParseError);
                    },
                }
                i += 1;
            }
            proof {
                assert(numbers(rest)->0 =~= drops@);
            }
            Ok(GameMove::Spread { x, y, direction, drops })
        } else {
            Err(RelayError::ParseError)
        }
    }
}

/// A word of one character.
fn letter_word(c: char) -> (w: Vec<char>)
    ensures
        w@ == seq![c],
{
    let mut w: Vec<char> = Vec::new();
    w.push(c);
    w
}

/// The square `(x, y)` as a word with an uppercase file letter.
fn upper_square_word(x: u32, y: u32) -> (w: Vec<char>)
    requires
        on_board(x, y),
    ensures
        w@ == upper_square_text(x, y),
{
    let mut w: Vec<char> = Vec::new();
    push_square(&mut w, x, y, true);
    w
}

/// The first word of the lines about game `id`.
pub fn game_tag_word(id: u32) -> (w: Vec<char>)
    ensures
        w@ == game_tag(id),
{
    let mut w: Vec<char> = Vec::new();
    push_str(&mut w, "Game#");
    push_decimal(&mut w, id as u64);
    w
}

impl GameMove {
    /// Whether the move can be written in wire notation.
    pub fn is_wire_writable(&self) -> (b: bool)
        ensures
            b == wire_writable(self@),
    {
        match self {
            GameMove::Place { x, y, .. } => *x < FILES && *y < RANKS,
            GameMove::Spread { x, y, direction, drops } => {
                let count = drops.len();
                if !(*x < FILES && *y < RANKS) || count > 8 {
                    return false;
                }
                let count: u32 = count as u32;
                match direction {
                    Direction::North => *y + count < RANKS,
                    Direction::South => count <= *y,
                    Direction::East => *x + count < FILES,
                    Direction::West => count <= *x,
                }
            },
        }
    }

    /// The words of the line that tells the server of this move.
    fn playtak_words(&self, game_id: u32) -> (ws: Vec<Vec<char>>)
        requires
            wire_writable(self@),
        ensures
            word_views(ws@) == wire_words(self@, game_id),
    {
        let mut ws: Vec<Vec<char>> = Vec::new();
        push_word(&mut ws, game_tag_word(game_id));
        match self {
            GameMove::Place { x, y, piece_type } => {
                push_word(&mut ws, letter_word('P'));
                push_word(&mut ws, upper_square_word(*x, *y));
                match piece_type {
                    PieceType::Flatstone => {},
                    PieceType::StandingStone => {
                        push_word(&mut ws, letter_word('W'));
                    },
                    PieceType::Capstone => {
                        push_word(&mut ws, letter_word('C'));
                    },
                }
            },
            GameMove::Spread { x, y, direction, drops } => {
                let count: u32 = drops.len() as u32;
                let (tx, ty): (u32, u32) = match direction {
                    Direction::North => (*x, *y + count),
                    Direction::South => (*x, *y - count),
                    Direction::East => (*x + count, *y),
                    Direction::West => (*x - count, *y),
                };
                push_word(&mut ws, letter_word('M'));
                push_word(&mut ws, upper_square_word(*x, *y));
                push_word(&mut ws, upper_square_word(tx, ty));
                let ghost head = word_views(ws@);
                let mut i: usize = 0;
                while i < drops.len()
                    invariant
                        i <= drops.len(),
                        word_views(ws@) == head + drop_words(drops@).take(i as int),
                    decreases drops.len() - i,
                {
                    push_word(&mut ws, number_word(drops[i] as u64));
                    i += 1;
                }
            },
        }
        ws
    }

    /// Writes the line that tells the server of this move in game
    /// `game_id`, such as `Game#1 P C6 C` or `Game#1 M B4 F4 2 1 2 1`, with
    /// a line feed at its end.
    pub fn to_playtak(&self, game_id: u32) -> (s: String)
        requires
            wire_writable(self@),
        ensures
            s@ == wire_text(self@, game_id),
    {
        let ws = self.playtak_words(game_id);
        line_string(&ws)
    }
}

/// Whether the wire notation determines the move, so that reading its line
/// gives the move back: a spread needs a drop, for a line without drops is
/// no move.
pub open spec fn wire_exact(m: MoveView) -> bool {
    &&& wire_writable(m)
    &&& m is Spread ==> m->drops.len() >= 1
}

/// A spread that the wire notation reads has at least one drop.
pub proof fn lemma_wire_move_has_drop(p: Seq<Seq<char>>)
    ensures
        wire_move_of_words(p) is Some && wire_move_of_words(p)->0 is Spread ==> wire_move_of_words(
            p,
        )->0->drops.len() >= 1,
{
}

/// The wire notation determines every move of the game that it can write.
pub proof fn lemma_well_formed_wire_exact(m: MoveView)
    requires
        well_formed(m),
        wire_writable(m),
    ensures
        wire_exact(m),
{
}

/// The tag of a game can stand as a word of a line.
pub proof fn lemma_game_tag_is_word(id: u32)
    ensures
        is_word(game_tag(id)),
{
    reveal_strlit("Game#");
    lemma_decimal_is_word(id as nat);
    let tag = game_tag(id);
    assert forall|i: int| 0 <= i < tag.len() implies !is_space(#[trigger] tag[i]) by {}
}

/// Reading the decimal words of the drops gives the drops back.
pub proof fn lemma_numbers_of_drop_words(drops: Seq<u32>)
    ensures
        numbers(drop_words(drops)) == Some(drops),
{
    let ws = drop_words(drops);
    assert forall|i: int| 0 <= i < ws.len() implies #[trigger] u32_of(ws[i]) == Some(drops[i]) by {
        lemma_u32_round_trip(drops[i]);
    }
}

/// Every word of the line that the wire notation writes for a move can
/// stand as a word, so that splitting the line gives exactly these words.
pub proof fn lemma_wire_words(m: MoveView, id: u32)
    requires
        wire_writable(m),
    ensures
        all_words(wire_words(m, id)),
        words(wire_text(m, id)) == wire_words(m, id),
{
    let ws = wire_words(m, id);
    lemma_game_tag_is_word(id);
    if let MoveView::Spread { drops, .. } = m {
        assert forall|i: int| 0 <= i < ws.len() implies is_word(#[trigger] ws[i]) by {
            if i >= 4 {
                lemma_decimal_is_word(drops[i - 4] as nat);
            }
        }
    }
    lemma_words_of_line(ws);
}

/// Two games with different numbers have different tags.
pub proof fn lemma_game_tags_differ(a: u32, b: u32)
    requires
        a != b,
    ensures
        game_tag(a) != game_tag(b),
{
    reveal_strlit("Game#");
    lemma_decimal_value(a as nat);
    lemma_decimal_value(b as nat);
    assert(game_tag(a).skip(5) =~= decimal(a as nat));
    assert(game_tag(b).skip(5) =~= decimal(b as nat));
}

/// Reading the line that the wire notation writes for a move gives the move
/// back, whatever the game, for every move that the notation determines.
pub proof fn lemma_wire_round_trip(m: MoveView, id: u32)
    requires
        wire_exact(m),
    ensures
        wire_move(wire_text(m, id)) == Some(m),
{
    let ws = wire_words(m, id);
    lemma_wire_words(m, id);
    match m {
        MoveView::Place { x, y, .. } => {
            lemma_square_round_trip(x, y);
        },
        MoveView::Spread { x, y, direction, drops } => {
            let target = spread_target(x, y, direction, drops.len())->0;
            lemma_square_round_trip(x, y);
            lemma_square_round_trip(target.0, target.1);
            assert(ws.skip(4) =~= drop_words(drops));
            lemma_numbers_of_drop_words(drops);
            assert(ws[1][0] == 'M');
        },
    }
}

} // verus!
