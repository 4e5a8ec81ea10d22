//! What the relay reads from a TEI engine while it starts up, and how it sets
//! the engine up for a game.

use vstd::prelude::*;

use crate::error::RelayError;
use crate::game::{Game, GameView};
use crate::option::{
    negotiated, option_of_words, option_views, validate_and_set_option, SpinOption, SpinOptionView,
};
use crate::relay::{line_views, lines_view};
use crate::seek::{
    capstones_for_size, flatstones_for_size, usual_capstones, usual_flatstones, valid_size,
};
use crate::text::{
    chars_of, contains, contains_text, found_at, is_text, line_of, line_string, push_word,
    split_words, starts_with, string_of, tail_of, text_view, words,
};

verus! {

/// The line that asks the engine to speak TEI.
pub fn hello_line() -> (s: String)
    ensures
        s@ == line_of(seq!["tei"@]),
{
    let mut ws: Vec<Vec<char>> = Vec::new();
    push_word(&mut ws, chars_of("tei"));
    line_string(&ws)
}

/// What a line of the engine says while the engine starts up.
#[derive(Debug)]
pub enum EngineLine {
    /// The name of the engine.
    Name(String),
    /// An integer setting that the engine advertises.
    Setting(SpinOption),
    /// The engine is ready.
    Ready,
    /// Nothing that the relay reads.
    Other,
}

/// A line of the starting engine as a mathematical value.
pub enum EngineLineView {
    Name(Seq<char>),
    Setting(SpinOptionView),
    Ready,
    Other,
}

impl View for EngineLine {
    type V = EngineLineView;

    open spec fn view(&self) -> EngineLineView {
        match *self {
            EngineLine::Name(name) => EngineLineView::Name(name@),
            EngineLine::Setting(option) => EngineLineView::Setting(option@),
            EngineLine::Ready => EngineLineView::Ready,
            EngineLine::Other => EngineLineView::Other,
        }
    }
}

/// What a line of the starting engine says. After `id name` and a space
/// comes the name of the engine. A line that starts with `option` and holds
/// `type spin` advertises the setting that it describes. The line `teiok`
/// says that the engine is ready.
pub open spec fn engine_line(line: Seq<char>) -> Result<EngineLineView, RelayError> {
    if found_at(line, "id name"@, 0) {
        if found_at(line, "id name "@, 0) {
            Ok(EngineLineView::Name(line.skip(8)))
        } else {
            Ok(EngineLineView::Other)
        }
    } else if found_at(line, "option"@, 0) && contains_text(line, "type spin"@) {
        match option_of_words(words(line)) {
            Some(o) => Ok(EngineLineView::Setting(o)),
            None => Err(RelayError::ParseError),
        }
    } else if line == "teiok"@ {
        Ok(EngineLineView::Ready)
    } else {
        Ok(EngineLineView::Other)
    }
}

/// Reads a line that the engine printed while it starts up.
pub fn on_engine_init_line(line: &str) -> (r: Result<EngineLine, RelayError>)
    ensures
        match engine_line(line@) {
            Ok(v) => r is Ok && r->Ok_0@ == v,
            Err(e) => r == Err::<EngineLine, RelayError>(e),
        },
{
    let chars = chars_of(line);
    if starts_with(&chars, "id name") {
        if starts_with(&chars, "id name ") {
            proof {
                reveal_strlit("id name ");
            }
            let name = tail_of(&chars, 8);
            Ok(EngineLine::Name(string_of(&name)))
        } else {
            Ok(EngineLine::Other)
        }
    } else if starts_with(&chars, "option") && contains(&chars, "type spin") {
        let parts = split_words(&chars);
        match SpinOption::from_words(&parts) {
            Ok(option) => Ok(EngineLine::Setting(option)),
            Err(e) => Err(e),
        }
    } else if is_text(&chars, "teiok") {
        Ok(EngineLine::Ready)
    } else {
        Ok(EngineLine::Other)
    }
}

/// A number of the game as the value of an engine setting: the signed
/// number with the same 32 bits.
pub open spec fn setting_value(n: u32) -> i32 {
    if n <= i32::MAX {
        n as i32
    } else {
        (n - 0x1_0000_0000) as i32
    }
}

/// A number of the game as the value of an engine setting.
pub fn to_setting_value(n: u32) -> (v: i32)
    ensures
        v == setting_value(n),
{
    if n <= 0x7fff_ffff {
        n as i32
    } else {
        (n as i64 - 0x1_0000_0000) as i32
    }
}

/// A command as a list of lines to send: one line, or none.
pub open spec fn lines_of(command: Option<Seq<char>>) -> Seq<Seq<char>> {
    match command {
        Some(line) => seq![line],
        None => Seq::empty(),
    }
}

/// The commands that set the engine up for the game `g`, given the settings
/// that it advertises: the half komi, the flatstones and the capstones of
/// the game are negotiated in this order, the first against an assumed
/// value of zero and the other two against the usual numbers for the board
/// size. The first setting that the engine cannot take ends it.
pub open spec fn setup_commands(g: GameView, options: Seq<SpinOptionView>) -> Result<
    Seq<Seq<char>>,
    RelayError,
> {
    match negotiated(options, "HalfKomi"@, setting_value(g.half_komi), 0) {
        Err(e) => Err(e),
        Ok(komi) => match negotiated(
            options,
            "Flatstones"@,
            setting_value(g.flatstones),
            usual_flatstones(g.size) as i32,
        ) {
            Err(e) => Err(e),
            Ok(flatstones) => match negotiated(
                options,
                "Capstones"@,
                setting_value(g.capstones),
                usual_capstones(g.size) as i32,
            ) {
                Err(e) => Err(e),
                Ok(capstones) => Ok(lines_of(komi) + lines_of(flatstones) + lines_of(capstones)),
            },
        },
    }
}

/// Appends the line of a command to `lines`, if there is one.
fn push_command(lines: &mut Vec<String>, command: Option<String>)
    ensures
        line_views(final(lines)@) == line_views(old(lines)@) + lines_of(text_view(command)),
{
    if let Some(line) = command {
        lines.push(line);
    }
}

/// Decides what to send to the engine, once it is ready, so that it plays
/// with the komi and the piece budgets of the game.
pub fn engine_setup(game: &Game, options: &[SpinOption]) -> (r: Result<Vec<String>, RelayError>)
    requires
        valid_size(game.size),
    ensures
        lines_view(r) == setup_commands(game@, option_views(options@)),
{
    let mut lines: Vec<String> = Vec::new();
    let komi = match validate_and_set_option(
        options,
        "HalfKomi",
        to_setting_value(game.half_komi),
        0,
    ) {
        Ok(command) => command,
        Err(e) => {
            return Err(e);
        },
    };
    push_command(&mut lines, komi);
    let flatstones = match validate_and_set_option(
        options,
        "Flatstones",
        to_setting_value(game.flatstones),
        flatstones_for_size(game.size) as i32,
    ) {
        Ok(command) => command,
        Err(e) => {
            return Err(e);
        },
    };
    push_command(&mut lines, flatstones);
    let capstones = match validate_and_set_option(
        options,
        "Capstones",
        to_setting_value(game.capstones),
        capstones_for_size(game.size) as i32,
    ) {
        Ok(command) => command,
        Err(e) => {
            return Err(e);
        },
    };
    push_command(&mut lines, capstones);
    Ok(lines)
}

} // verus!
