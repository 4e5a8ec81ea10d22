//! Moves, the game in progress, and the commands that tell the engine of it.

use vstd::prelude::*;

use crate::error::RelayError;
use crate::number::{decimal, number_word, parse_u32, u32_of};
use crate::ptn::{ptn_text, ptn_writable};
use crate::text::{
    chars_of, is_text, line_of, line_string, push_word, split_words, string_of, word_views, words,
};

verus! {

/// The three kinds of piece.
#[derive(Clone, Copy, Debug, PartialEq, Eq, Structural)]
pub enum PieceType {
    Flatstone,
    StandingStone,
    Capstone,
}

/// The four directions in which a stack can be spread.
#[derive(Clone, Copy, Debug, PartialEq, Eq, Structural)]
pub enum Direction {
    North,
    South,
    East,
    West,
}

/// One move of a game: a piece placed on a square, or a stack picked up from
/// a square and dropped along a line.
#[derive(Clone, Debug, PartialEq, Eq)]
pub enum GameMove {
    Place { x: u32, y: u32, piece_type: PieceType },
    /// `drops` holds the number of pieces left on each square along
    /// `direction`, starting next to the square `(x, y)`.
    Spread { x: u32, y: u32, direction: Direction, drops: Vec<u32> },
}

/// A move as a mathematical value.
pub enum MoveView {
    Place { x: u32, y: u32, piece_type: PieceType },
    Spread { x: u32, y: u32, direction: Direction, drops: Seq<u32> },
}

impl View for GameMove {
    type V = MoveView;

    open spec fn view(&self) -> MoveView {
        match *self {
            GameMove::Place { x, y, piece_type } => MoveView::Place { x, y, piece_type },
            GameMove::Spread { x, y, direction, drops } => MoveView::Spread {
                x,
                y,
                direction,
                drops: drops@,
            },
        }
    }
}

/// Whether a move is one of the game: a spread leaves at least one piece on
/// each of at least one square.
pub open spec fn well_formed(m: MoveView) -> bool {
    match m {
        MoveView::Place { .. } => true,
        MoveView::Spread { drops, .. } => {
            &&& drops.len() >= 1
            &&& forall|i: int| 0 <= i < drops.len() ==> #[trigger] drops[i] >= 1
        },
    }
}

impl GameMove {
    /// Whether the move is one of the game.
    pub fn is_well_formed(&self) -> (b: bool)
        ensures
            b == well_formed(self@),
    {
        match self {
            GameMove::Place { .. } => true,
            GameMove::Spread { drops, .. } => {
                if drops.len() == 0 {
                    return false;
                }
                let mut i: usize = 0;
                while i < drops.len()
                    invariant
                        i <= drops.len(),
                        self@ is Spread,
                        self@->drops == drops@,
                        forall|k: int| 0 <= k < i ==> #[trigger] drops@[k] >= 1,
                    decreases drops.len() - i,
                {
                    if drops[i] == 0 {
                        return false;
                    }
                    i += 1;
                }
                true
            },
        }
    }
}

/// The side that this end of the relay plays.
#[derive(Clone, Copy, Debug, PartialEq, Eq, Structural)]
pub enum PlayerColor {
    White,
    Black,
}

/// One match in progress, as the relay knows it.
#[derive(Debug)]
pub struct Game {
    pub id: u32,
    pub size: u32,
    pub opponent: String,
    pub color: PlayerColor,
    /// The clocks of white and of black, in seconds.
    pub time: (u32, u32),
    pub half_komi: u32,
    pub flatstones: u32,
    pub capstones: u32,
    /// Every move played so far, oldest first.
    pub moves: Vec<GameMove>,
}

/// A match as a mathematical value.
pub struct GameView {
    pub id: u32,
    pub size: u32,
    pub opponent: Seq<char>,
    pub color: PlayerColor,
    pub time: (u32, u32),
    pub half_komi: u32,
    pub flatstones: u32,
    pub capstones: u32,
    pub moves: Seq<MoveView>,
}

/// The views of a list of moves.
pub open spec fn move_views(moves: Seq<GameMove>) -> Seq<MoveView> {
    moves.map_values(|m: GameMove| m@)
}

impl View for Game {
    type V = GameView;

    open spec fn view(&self) -> GameView {
        GameView {
            id: self.id,
            size: self.size,
            opponent: self.opponent@,
            color: self.color,
            time: self.time,
            half_komi: self.half_komi,
            flatstones: self.flatstones,
            capstones: self.capstones,
            moves: move_views(self.moves@),
        }
    }
}

/// The color that a word of a game start line names.
pub open spec fn color_of(w: Seq<char>) -> Option<PlayerColor> {
    if w == "white"@ {
        Some(PlayerColor::White)
    } else if w == "black"@ {
        Some(PlayerColor::Black)
    } else {
        None
    }
}

/// The match that the words of a game start line describe: after two words
/// that are not read come the game number, the board size, white's name, a
/// word that is not read, black's name, our color, the time of both clocks,
/// the half komi and the two piece budgets. No move has been played.
pub open spec fn game_of_words(p: Seq<Seq<char>>) -> Option<GameView> {
    if p.len() < 12 {
        None
    } else {
        match (
            color_of(p[7]),
            u32_of(p[8]),
            u32_of(p[2]),
            u32_of(p[3]),
            u32_of(p[9]),
            u32_of(p[10]),
            u32_of(p[11]),
        ) {
            (
                Some(color),
                Some(time),
                Some(id),
                Some(size),
                Some(half_komi),
                Some(flatstones),
                Some(capstones),
            ) => Some(
                GameView {
                    id,
                    size,
                    opponent: match color {
                        PlayerColor::White => p[6],
                        PlayerColor::Black => p[4],
                    },
                    color,
                    time: (time, time),
                    half_komi,
                    flatstones,
                    capstones,
                    moves: Seq::empty(),
                },
            ),
            _ => None,
        }
    }
}

/// The words of the command that tells the engine of a new game on a board
/// of `size`.
pub open spec fn new_game_words(size: u32) -> Seq<Seq<char>> {
    seq!["teinewgame"@, decimal(size as nat)]
}

/// The words of the command that asks the engine for a move, with both
/// clocks in milliseconds.
pub open spec fn search_words(time: (u32, u32)) -> Seq<Seq<char>> {
    seq![
        "go"@,
        "wtime"@,
        decimal((time.0 * 1000) as nat),
        "btime"@,
        decimal((time.1 * 1000) as nat),
    ]
}

/// The moves in algebraic notation, one word each.
pub open spec fn ptn_words(moves: Seq<MoveView>) -> Seq<Seq<char>> {
    Seq::new(moves.len(), |i: int| ptn_text(moves[i]))
}

/// The words of the command that replays the moves to the engine from the
/// empty board.
pub open spec fn position_words(moves: Seq<MoveView>) -> Seq<Seq<char>> {
    seq!["position"@, "startpos"@, "moves"@] + ptn_words(moves)
}

/// Whether every one of the moves can be written in algebraic notation.
pub open spec fn replayable(moves: Seq<MoveView>) -> bool {
    forall|i: int| 0 <= i < moves.len() ==> ptn_writable(#[trigger] moves[i])
}

/// Whether it is the turn of the side `color` after `played` moves: white
/// moves first.
pub open spec fn turn_of(color: PlayerColor, played: nat) -> bool {
    match color {
        PlayerColor::White => played % 2 == 0,
        PlayerColor::Black => played % 2 == 1,
    }
}

impl Game {
    /// Reads a game start line of the server.
    pub fn from_str(s: &str) -> (r: Result<Game, RelayError>)
        ensures
            match game_of_words(words(s@)) {
                Some(g) => r is Ok && r->Ok_0@ == g,
                None => r == Err::<Game, RelayError>(RelayError::ParseError),
            },
    {
        let chars = chars_of(s);
        let parts = split_words(&chars);
        Game::from_words(&parts)
    }

    /// Reads the words of a game start line of the server.
    pub fn from_words(parts: &Vec<Vec<char>>) -> (r: Result<Game, RelayError>)
        ensures
            match game_of_words(word_views(parts@)) {
                Some(g) => r is Ok && r->Ok_0@ == g,
                None => r == Err::<Game, RelayError>(RelayError::ParseError),
            },
    {
        if parts.len() < 12 {
            return Err(RelayError::ParseError);
        }
        let color = if is_text(&parts[7], "white") {
            PlayerColor::White
        } else if is_text(&parts[7], "black") {
            PlayerColor::Black
        } else {
            return Err(RelayError::ParseError);
        };
        let opponent = match color {
            PlayerColor::White => string_of(&parts[6]),
            PlayerColor::Black => string_of(&parts[4]),
        };
        let time = match parse_u32(&parts[8]) {
            Some(n) => n,
            None => {
                return Err(RelayError::ParseError);
            },
        };
        let id = match parse_u32(&parts[2]) {
            Some(n) => n,
            None => {
                return Err(RelayError::ParseError);
            },
        };
        let size = match parse_u32(&parts[3]) {
            Some(n) => n,
            None => {
                return Err(RelayError::ParseError);
            },
        };
        let half_komi = match parse_u32(&parts[9]) {
            Some(n) => n,
            None => {
                return Err(RelayError::ParseError);
            },
        };
        let flatstones = match parse_u32(&parts[10]) {
            Some(n) => n,
            None => {
                return Err(RelayError::ParseError);
            },
        };
        let capstones = match parse_u32(&parts[11]) {
            Some(n) => n,
            None => {
                return Err(RelayError::ParseError);
            },
        };
        let game = Game {
            id,
            size,
            opponent,
            color,
            time: (time, time),
            half_komi,
            flatstones,
            capstones,
            moves: Vec::new(),
        };
        proof {
            assert(game@.moves =~= Seq::<MoveView>::empty());
        }
        Ok(game)
    }

    /// Whether every move played so far can be written in algebraic
    /// notation, so that the game can be replayed to the engine.
    pub open spec fn replayable(&self) -> bool {
        replayable(self@.moves)
    }

    /// Whether every move played so far can be written in algebraic
    /// notation.
    pub fn is_replayable(&self) -> (b: bool)
        ensures
            b == self.replayable(),
    {
        let ghost views = self@.moves;
        let mut i: usize = 0;
        while i < self.moves.len()
            invariant
                i <= self.moves.len(),
                views == move_views(self.moves@),
                forall|k: int| 0 <= k < i ==> ptn_writable(#[trigger] views[k]),
            decreases self.moves.len() - i,
        {
            proof {
                assert(views[i as int] == self.moves@[i as int]@);
            }
            if !self.moves[i].is_ptn_writable() {
                return false;
            }
            i += 1;
        }
        true
    }

    /// Whether it is our turn.
    pub fn our_turn(&self) -> (b: bool)
        ensures
            b == turn_of(self.color, self.moves@.len()),
    {
        match self.color {
            PlayerColor::White => self.moves.len() % 2 == 0,
            PlayerColor::Black => self.moves.len() % 2 == 1,
        }
    }

    /// The command that tells the engine of a new game on this board size.
    pub fn new_game_string(&self) -> (s: String)
        ensures
            s@ == line_of(new_game_words(self.size)),
    {
        let mut ws: Vec<Vec<char>> = Vec::new();
        push_word(&mut ws, chars_of("teinewgame"));
        push_word(&mut ws, number_word(self.size as u64));
        proof {
            assert(word_views(ws@) =~= new_game_words(self.size));
        }
        line_string(&ws)
    }

    /// The command that asks the engine for a move, with both clocks in
    /// milliseconds.
    pub fn search_string(&self) -> (s: String)
        ensures
            s@ == line_of(search_words(self.time)),
    {
        let mut ws: Vec<Vec<char>> = Vec::new();
        push_word(&mut ws, chars_of("go"));
        push_word(&mut ws, chars_of("wtime"));
        push_word(&mut ws, number_word(self.time.0 as u64 * 1000));
        push_word(&mut ws, chars_of("btime"));
        push_word(&mut ws, number_word(self.time.1 as u64 * 1000));
        proof {
            assert(word_views(ws@) =~= search_words(self.time));
        }
        line_string(&ws)
    }

    /// The command that replays every move played so far to the engine.
    pub fn position_string(&self) -> (s: String)
        requires
            self.replayable(),
        ensures
            s@ == line_of(position_words(self@.moves)),
    {
        let mut ws: Vec<Vec<char>> = Vec::new();
        push_word(&mut ws, chars_of("position"));
        push_word(&mut ws, chars_of("startpos"));
        push_word(&mut ws, chars_of("moves"));
        let ghost head = word_views(ws@);
        let ghost views = self@.moves;
        let mut i: usize = 0;
        while i < self.moves.len()
            invariant
                i <= self.moves.len(),
                views == move_views(self.moves@),
                replayable(views),
                word_views(ws@) == head + ptn_words(views).take(i as int),
            decreases self.moves.len() - i,
        {
            proof {
                assert(views[i as int] == self.moves@[i as int]@);
            }
            push_word(&mut ws, self.moves[i].ptn_chars());
            i += 1;
        }
        proof {
            assert(ptn_words(views).take(i as int) =~= ptn_words(views));
            assert(head =~= seq!["position"@, "startpos"@, "moves"@]);
        }
        line_string(&ws)
    }
}

} // verus!
