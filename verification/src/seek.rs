//! Requests for a match: their fields, the usual piece numbers of each board
//! size, and their two forms on the wire.

use vstd::prelude::*;

use crate::error::RelayError;
use crate::number::{decimal, number_word, parse_u32, push_decimal, u32_of};
use crate::text::{
    chars_of, line_of, line_string, push_str, push_word, split_words, string_of, text_view,
    word_views, words,
};

verus! {

/// The color that a seek asks for.
#[derive(Clone, Copy, Debug, PartialEq, Eq, Structural)]
pub enum SeekColor {
    White,
    Black,
    Random,
}

/// A request for a match, as posted to the server or announced by it.
#[derive(Clone, Debug)]
pub struct Seek {
    /// The number that the server gave the seek; none on a seek that has
    /// not been posted.
    pub id: Option<u32>,
    pub player: Option<String>,
    pub size: u32,
    /// The time of each clock, in seconds.
    pub time: u32,
    /// The time added after each move, in seconds.
    pub increment: u32,
    pub color: SeekColor,
    pub half_komi: u32,
    /// The flatstones of each side, where they differ from the usual number
    /// for the board size.
    pub flatstones: Option<u32>,
    /// The capstones of each side, where they differ from the usual number
    /// for the board size.
    pub capstones: Option<u32>,
    pub unrated: bool,
    pub tournament: bool,
    /// The move after which extra time is given.
    pub extra_time_move: Option<u32>,
    /// The extra time, in seconds.
    pub extra_time_amount: Option<u32>,
    pub opponent: Option<String>,
}

/// A seek as a mathematical value.
pub struct SeekView {
    pub id: Option<u32>,
    pub player: Option<Seq<char>>,
    pub size: u32,
    pub time: u32,
    pub increment: u32,
    pub color: SeekColor,
    pub half_komi: u32,
    pub flatstones: Option<u32>,
    pub capstones: Option<u32>,
    pub unrated: bool,
    pub tournament: bool,
    pub extra_time_move: Option<u32>,
    pub extra_time_amount: Option<u32>,
    pub opponent: Option<Seq<char>>,
}

impl View for Seek {
    type V = SeekView;

    open spec fn view(&self) -> SeekView {
        SeekView {
            id: self.id,
            player: text_view(self.player),
            size: self.size,
            time: self.time,
            increment: self.increment,
            color: self.color,
            half_komi: self.half_komi,
            flatstones: self.flatstones,
            capstones: self.capstones,
            unrated: self.unrated,
            tournament: self.tournament,
            extra_time_move: self.extra_time_move,
            extra_time_amount: self.extra_time_amount,
            opponent: text_view(self.opponent),
        }
    }
}

/// Whether a board of `size` squares a side exists.
pub open spec fn valid_size(size: u32) -> bool {
    3 <= size <= 8
}

/// The usual number of flatstones of each side on a board of `size`.
pub open spec fn usual_flatstones(size: u32) -> u32 {
    if size == 3 {
        10
    } else if size == 4 {
        15
    } else if size == 5 {
        21
    } else if size == 6 {
        30
    } else if size == 7 {
        40
    } else {
        50
    }
}

/// The usual number of capstones of each side on a board of `size`.
pub open spec fn usual_capstones(size: u32) -> u32 {
    if size == 3 || size == 4 {
        0
    } else if size == 5 || size == 6 {
        1
    } else {
        2
    }
}

/// The usual number of flatstones of each side on a board of `size`: 10,
/// 15, 21, 30, 40 and 50 for the sizes 3 to 8.
pub fn flatstones_for_size(size: u32) -> (n: u32)
    requires
        valid_size(size),
    ensures
        n == usual_flatstones(size),
{
    if size == 3 {
        10
    } else if size == 4 {
        15
    } else if size == 5 {
        21
    } else if size == 6 {
        30
    } else if size == 7 {
        40
    } else {
        50
    }
}

/// The usual number of capstones of each side on a board of `size`: 0, 0,
/// 1, 1, 2 and 2 for the sizes 3 to 8.
pub fn capstones_for_size(size: u32) -> (n: u32)
    requires
        valid_size(size),
    ensures
        n == usual_capstones(size),
{
    if size == 3 || size == 4 {
        0
    } else if size == 5 || size == 6 {
        1
    } else {
        2
    }
}

/// Whether `size` is the size of a board.
pub fn is_valid_size(size: u32) -> (b: bool)
    ensures
        b == valid_size(size),
{
    3 <= size && size <= 8
}

/// The flatstones of each side in the game that a seek asks for.
pub open spec fn seek_flatstones(s: SeekView) -> u32 {
    match s.flatstones {
        Some(n) => n,
        None => usual_flatstones(s.size),
    }
}

/// The capstones of each side in the game that a seek asks for.
pub open spec fn seek_capstones(s: SeekView) -> u32 {
    match s.capstones {
        Some(n) => n,
        None => usual_capstones(s.size),
    }
}

/// The letter that stands for a color in a seek.
pub open spec fn color_letter(c: SeekColor) -> char {
    match c {
        SeekColor::White => 'W',
        SeekColor::Black => 'B',
        SeekColor::Random => 'A',
    }
}

/// The color that a word of a seek names.
pub open spec fn seek_color_of(w: Seq<char>) -> Option<SeekColor> {
    if w == seq!['W'] {
        Some(SeekColor::White)
    } else if w == seq!['B'] {
        Some(SeekColor::Black)
    } else if w == seq!['A'] {
        Some(SeekColor::Random)
    } else {
        None
    }
}

/// The flag that a word of a seek gives: `0` or `1`.
pub open spec fn flag_of(w: Seq<char>) -> Option<bool> {
    if w == seq!['0'] {
        Some(false)
    } else if w == seq!['1'] {
        Some(true)
    } else {
        None
    }
}

/// A flag as a number: 0 or 1.
pub open spec fn flag_number(b: bool) -> nat {
    if b {
        1
    } else {
        0
    }
}

/// A number, or zero where there is none.
pub open spec fn number_or_zero(o: Option<u32>) -> nat {
    match o {
        Some(n) => n as nat,
        None => 0,
    }
}

/// A number that is absent when it is zero.
pub open spec fn positive(n: u32) -> Option<u32> {
    if n > 0 {
        Some(n)
    } else {
        None
    }
}

/// Whether a seek can be posted: it gives both piece budgets, or its board
/// size has usual ones.
pub open spec fn postable(s: SeekView) -> bool {
    (s.flatstones is Some && s.capstones is Some) || valid_size(s.size)
}

/// The words of the line that posts a seek: the word `Seek` and twelve
/// fields. The last field, the opponent, is empty where the seek names none.
pub open spec fn seek_words(s: SeekView) -> Seq<Seq<char>> {
    seq![
        "Seek"@,
        decimal(s.size as nat),
        decimal(s.time as nat),
        decimal(s.increment as nat),
        seq![color_letter(s.color)],
        decimal(s.half_komi as nat),
        decimal(seek_flatstones(s) as nat),
        decimal(seek_capstones(s) as nat),
        decimal(flag_number(s.unrated)),
        decimal(flag_number(s.tournament)),
        decimal(number_or_zero(s.extra_time_move)),
        decimal(number_or_zero(s.extra_time_amount)),
        match s.opponent {
            Some(name) => name,
            None => Seq::empty(),
        },
    ]
}

/// The seek that the words of an announcement describe: after two words
/// that are not read come the number of the seek, the player, the board
/// size, the time, the increment, the color, the half komi, the two piece
/// budgets, the two flags, the two extra time fields, and perhaps an
/// opponent. An extra time field of zero means that there is none.
pub open spec fn seek_of_words(p: Seq<Seq<char>>) -> Option<SeekView> {
    if p.len() < 15 {
        None
    } else if u32_of(p[2]) is Some && u32_of(p[4]) is Some && u32_of(p[5]) is Some && u32_of(
        p[6],
    ) is Some && seek_color_of(p[7]) is Some && u32_of(p[8]) is Some && u32_of(p[9]) is Some
        && u32_of(p[10]) is Some && flag_of(p[11]) is Some && flag_of(p[12]) is Some && u32_of(
        p[13],
    ) is Some && u32_of(p[14]) is Some {
        Some(
            SeekView {
                id: u32_of(p[2]),
                player: Some(p[3]),
                size: u32_of(p[4])->0,
                time: u32_of(p[5])->0,
                increment: u32_of(p[6])->0,
                color: seek_color_of(p[7])->0,
                half_komi: u32_of(p[8])->0,
                flatstones: u32_of(p[9]),
                capstones: u32_of(p[10]),
                unrated: flag_of(p[11])->0,
                tournament: flag_of(p[12])->0,
                extra_time_move: positive(u32_of(p[13])->0),
                extra_time_amount: positive(u32_of(p[14])->0),
                opponent: if p.len() > 15 {
                    Some(p[15])
                } else {
                    None
                },
            },
        )
    } else {
        None
    }
}

/// Reads a flag: the word `0` or the word `1`.
fn parse_flag(w: &Vec<char>) -> (r: Option<bool>)
    ensures
        r == flag_of(w@),
{
    if w.len() != 1 {
        return None;
    }
    proof {
        assert(w@ =~= seq![w@[0]]);
    }
    if w[0] == '0' {
        Some(false)
    } else if w[0] == '1' {
        Some(true)
    } else {
        None
    }
}

/// Reads the color of a seek: one of the words `W`, `B` and `A`.
fn parse_seek_color(w: &Vec<char>) -> (r: Option<SeekColor>)
    ensures
        r == seek_color_of(w@),
{
    if w.len() != 1 {
        return None;
    }
    proof {
        assert(w@ =~= seq![w@[0]]);
    }
    if w[0] == 'W' {
        Some(SeekColor::White)
    } else if w[0] == 'B' {
        Some(SeekColor::Black)
    } else if w[0] == 'A' {
        Some(SeekColor::Random)
    } else {
        None
    }
}

impl Seek {
    /// The flatstones of each side in the game that the seek asks for: its
    /// own number, or the usual one for its board size.
    pub fn flatstones(&self) -> (n: u32)
        requires
            self.flatstones is Some || valid_size(self.size),
        ensures
            n == seek_flatstones(self@),
    {
        match self.flatstones {
            Some(n) => n,
            None => flatstones_for_size(self.size),
        }
    }

    /// The capstones of each side in the game that the seek asks for: its
    /// own number, or the usual one for its board size.
    pub fn capstones(&self) -> (n: u32)
        requires
            self.capstones is Some || valid_size(self.size),
        ensures
            n == seek_capstones(self@),
    {
        match self.capstones {
            Some(n) => n,
            None => capstones_for_size(self.size),
        }
    }

    /// Whether the seek can be posted.
    pub fn is_postable(&self) -> (b: bool)
        ensures
            b == postable(self@),
    {
        (self.flatstones.is_some() && self.capstones.is_some()) || is_valid_size(self.size)
    }

    /// Reads a seek from a line by which the server announces one.
    pub fn from_str(s: &str) -> (r: Result<Seek, RelayError>)
        ensures
            match seek_of_words(words(s@)) {
                Some(v) => r is Ok && r->Ok_0@ == v,
                None => r == Err::<Seek, RelayError>(RelayError::ParseError),
            },
    {
        let chars = chars_of(s);
        let parts = split_words(&chars);
        Seek::from_words(&parts)
    }

    /// Reads a seek from the words of an announcement.
    pub fn from_words(parts: &Vec<Vec<char>>) -> (r: Result<Seek, RelayError>)
        ensures
            match seek_of_words(word_views(parts@)) {
                Some(v) => r is Ok && r->Ok_0@ == v,
                None => r == Err::<Seek, RelayError>(RelayError::ParseError),
            },
    {
        if parts.len() < 15 {
            return Err(RelayError::ParseError);
        }
        let id = parse_u32(&parts[2]);
        let size = parse_u32(&parts[4]);
        let time = parse_u32(&parts[5]);
        let increment = parse_u32(&parts[6]);
        let color = parse_seek_color(&parts[7]);
        let half_komi = parse_u32(&parts[8]);
        let flatstones = parse_u32(&parts[9]);
        let capstones = parse_u32(&parts[10]);
        let unrated = parse_flag(&parts[11]);
        let tournament = parse_flag(&parts[12]);
        let extra_move = parse_u32(&parts[13]);
        let extra_amount = parse_u32(&parts[14]);
        match (
            id,
            size,
            time,
            increment,
            color,
            half_komi,
            flatstones,
            capstones,
            unrated,
            tournament,
            extra_move,
            extra_amount,
        ) {
            (
                Some(id),
                Some(size),
                Some(time),
                Some(increment),
                Some(color),
                Some(half_komi),
                Some(flatstones),
                Some(capstones),
                Some(unrated),
                Some(tournament),
                Some(extra_move),
                Some(extra_amount),
            ) => {
                let opponent = if parts.len() > 15 {
                    Some(string_of(&parts[15]))
                } else {
                    None
                };
                Ok(
                    Seek {
                        id: Some(id),
                        player: Some(string_of(&parts[3])),
                        size,
                        time,
                        increment,
                        color,
                        half_komi,
                        flatstones: Some(flatstones),
                        capstones: Some(capstones),
                        unrated,
                        tournament,
                        extra_time_move: if extra_move > 0 {
                            Some(extra_move)
                        } else {
                            None
                        },
                        extra_time_amount: if extra_amount > 0 {
                            Some(extra_amount)
                        } else {
                            None
                        },
                        opponent,
                    },
                )
            },
            _ => Err(RelayError::ParseError),
        }
    }

    /// Writes the line that posts the seek.
    pub fn to_seek_string(&self) -> (s: String)
        requires
            postable(self@),
        ensures
            s@ == line_of(seek_words(self@)),
    {
        let mut ws: Vec<Vec<char>> = Vec::new();
        push_word(&mut ws, chars_of("Seek"));
        push_word(&mut ws, number_word(self.size as u64));
        push_word(&mut ws, number_word(self.time as u64));
        push_word(&mut ws, number_word(self.increment as u64));
        let mut letter: Vec<char> = Vec::new();
        letter.push(
            match self.color {
                SeekColor::White => 'W',
                SeekColor::Black => 'B',
                SeekColor::Random => 'A',
            },
        );
        push_word(&mut ws, letter);
        push_word(&mut ws, number_word(self.half_komi as u64));
        push_word(&mut ws, number_word(self.flatstones() as u64));
        push_word(&mut ws, number_word(self.capstones() as u64));
        push_word(&mut ws, number_word(if self.unrated { 1 } else { 0 }));
        push_word(&mut ws, number_word(if self.tournament { 1 } else { 0 }));
        push_word(
            &mut ws,
            number_word(
                match self.extra_time_move {
                    Some(n) => n as u64,
                    None => 0,
                },
            ),
        );
        push_word(
            &mut ws,
            number_word(
                match self.extra_time_amount {
                    Some(n) => n as u64,
                    None => 0,
                },
            ),
        );
        let name: Vec<char> = match &self.opponent {
            Some(name) => chars_of(name.as_str()),
            None => Vec::new(),
        };
        push_word(&mut ws, name);
        proof {
            assert(word_views(ws@) =~= seek_words(self@));
        }
        line_string(&ws)
    }
}

/// The name of a color in the description of a seek.
pub open spec fn color_name(c: SeekColor) -> Seq<char> {
    match c {
        SeekColor::White => "white"@,
        SeekColor::Black => "black"@,
        SeekColor::Random => "random"@,
    }
}

/// The first line of the description of a seek: its number and its player,
/// as far as it has them.
pub open spec fn description_head(s: SeekView) -> Seq<char> {
    "  Seek"@ + (match s.id {
        Some(id) => " "@ + decimal(id as nat) + ": "@,
        None => ": "@,
    }) + (match s.player {
        Some(player) => player,
        None => Seq::empty(),
    }) + "\n"@
}

/// A note of a number that is not the usual one: the label and the number,
/// or nothing where the number is the usual one.
pub open spec fn count_note(label: Seq<char>, n: u32, usual: u32) -> Seq<char> {
    if n != usual {
        label + decimal(n as nat)
    } else {
        Seq::empty()
    }
}

/// A note of a flag: the label where the flag is set.
pub open spec fn flag_note(label: Seq<char>, set: bool) -> Seq<char> {
    if set {
        label
    } else {
        Seq::empty()
    }
}

/// A note of a name: the label and the name, where there is one.
pub open spec fn name_note(label: Seq<char>, name: Option<Seq<char>>) -> Seq<char> {
    match name {
        Some(name) => label + name,
        None => Seq::empty(),
    }
}

/// What the description of a seek says of its pieces, its flags and its
/// opponent: the piece numbers only where they are not the usual ones.
pub open spec fn description_tail(s: SeekView) -> Seq<char> {
    count_note(", flatstones: "@, seek_flatstones(s), usual_flatstones(s.size)) + count_note(
        ", capstones: "@,
        seek_capstones(s),
        usual_capstones(s.size),
    ) + flag_note(", unrated"@, s.unrated) + flag_note(", tournament"@, s.tournament) + name_note(
        ", opponent: "@,
        s.opponent,
    )
}

/// Appends the note of a number that is not the usual one to `out`.
fn push_count_note(out: &mut Vec<char>, label: &str, n: u32, usual: u32)
    ensures
        final(out)@ == old(out)@ + count_note(label@, n, usual),
{
    if n != usual {
        push_str(out, label);
        push_decimal(out, n as u64);
    }
    proof {
        assert(final(out)@ =~= old(out)@ + count_note(label@, n, usual));
    }
}

/// Appends the note of a flag to `out`.
fn push_flag_note(out: &mut Vec<char>, label: &str, set: bool)
    ensures
        final(out)@ == old(out)@ + flag_note(label@, set),
{
    if set {
        push_str(out, label);
    }
    proof {
        assert(final(out)@ =~= old(out)@ + flag_note(label@, set));
    }
}

/// Appends the note of a name to `out`.
fn push_name_note(out: &mut Vec<char>, label: &str, name: &Option<String>)
    ensures
        final(out)@ == old(out)@ + name_note(label@, text_view(*name)),
{
    if let Some(name) = name {
        push_str(out, label);
        push_str(out, name.as_str());
    }
    proof {
        assert(final(out)@ =~= old(out)@ + name_note(label@, text_view(*name)));
    }
}

/// What the description of a seek says of its board, its color and its
/// clock.
pub open spec fn description_body(s: SeekView) -> Seq<char> {
    "      size: "@ + decimal(s.size as nat) + ", seeker color: "@ + color_name(s.color)
        + ", time: "@ + decimal(s.time as nat) + "+"@ + decimal(s.increment as nat)
}

/// The description of a seek for a reader, in two lines, with the komi
/// written as `komi`.
pub open spec fn description(s: SeekView, komi: Seq<char>) -> Seq<char> {
    description_head(s) + description_body(s) + ", komi: "@ + komi + description_tail(s)
}

impl Seek {
    /// Appends the first line of the description to `out`.
    fn push_head(&self, out: &mut Vec<char>)
        ensures
            final(out)@ == old(out)@ + description_head(self@),
    {
        push_str(out, "  Seek");
        match self.id {
            Some(id) => {
                push_str(out, " ");
                push_decimal(out, id as u64);
                push_str(out, ": ");
            },
            None => {
                push_str(out, ": ");
            },
        }
        if let Some(player) = &self.player {
            push_str(out, player.as_str());
        }
        push_str(out, "\n");
        proof {
            assert(final(out)@ =~= old(out)@ + description_head(self@));
        }
    }

    /// Appends the board, the color and the clock of the description to
    /// `out`.
    fn push_body(&self, out: &mut Vec<char>)
        ensures
            final(out)@ == old(out)@ + description_body(self@),
    {
        push_str(out, "      size: ");
        push_decimal(out, self.size as u64);
        push_str(out, ", seeker color: ");
        push_str(
            out,
            match self.color {
                SeekColor::White => "white",
                SeekColor::Black => "black",
                SeekColor::Random => "random",
            },
        );
        push_str(out, ", time: ");
        push_decimal(out, self.time as u64);
        push_str(out, "+");
        push_decimal(out, self.increment as u64);
        proof {
            assert(final(out)@ =~= old(out)@ + description_body(self@));
        }
    }

    /// Appends the pieces, the flags and the opponent of the description to
    /// `out`.
    fn push_tail(&self, out: &mut Vec<char>)
        requires
            valid_size(self.size),
        ensures
            final(out)@ == old(out)@ + description_tail(self@),
    {
        push_count_note(
            out,
            ", flatstones: ",
            self.flatstones(),
            flatstones_for_size(self.size),
        );
        push_count_note(out, ", capstones: ", self.capstones(), capstones_for_size(self.size));
        push_flag_note(out, ", unrated", self.unrated);
        push_flag_note(out, ", tournament", self.tournament);
        push_name_note(out, ", opponent: ", &self.opponent);
        proof {
            assert(final(out)@ =~= old(out)@ + description_tail(self@));
        }
    }

    /// Describes the seek for a reader, in two lines. The komi is half of
    /// the half komi, and the caller says how it is written.
    pub fn describe(&self, komi: &str) -> (text: String)
        requires
            valid_size(self.size),
        ensures
            text@ == description(self@, komi@),
    {
        let mut out: Vec<char> = Vec::new();
        self.push_head(&mut out);
        self.push_body(&mut out);
        push_str(&mut out, ", komi: ");
        push_str(&mut out, komi);
        self.push_tail(&mut out);
        proof {
            assert(out@ =~= description(self@, komi@));
        }
        string_of(&out)
    }
}

} // verus!
