//! The steps of a session with the server before the game: the handshake,
//! the login, a resumed game, the list of seeks and the wait for a game.

use vstd::prelude::*;

use crate::error::RelayError;
use crate::game::{game_of_words, Game, GameMove, GameView};
use crate::number::{decimal, number_word, parse_u32};
use crate::option::command_view;
use crate::playtak::wire_move_of_words;
use crate::relay::{clock_of_words, record_move};
use crate::seek::{seek_of_words, Seek, SeekView};
use crate::text::{
    chars_of, found_at, is_text, line_of, line_string, push_word, split_words, starts_with,
    string_of, text_view, word_views, words,
};

verus! {

/// The lines that the server sends before it takes a login, and the answer
/// to the line that names this client, in the order in which they come.
#[derive(Clone, Copy, Debug, PartialEq, Eq, Structural)]
pub enum Handshake {
    Welcome,
    Prompt,
    Acknowledge,
}

/// What follows a line of the handshake.
#[derive(Clone, Copy, Debug, PartialEq, Eq, Structural)]
pub enum HandshakeStep {
    /// The next line of the handshake is awaited.
    Expect(Handshake),
    /// The line that names this client is sent, and then the given line of
    /// the handshake is awaited.
    Announce(Handshake),
    /// The handshake is over: the login follows.
    Complete,
}

/// The line that the server sends at a stage of the handshake.
pub open spec fn expected_line(stage: Handshake) -> Seq<char> {
    match stage {
        Handshake::Welcome => "Welcome!"@,
        Handshake::Prompt => "Login or Register"@,
        Handshake::Acknowledge => "OK"@,
    }
}

/// What follows the expected line at a stage of the handshake.
pub open spec fn handshake_next(stage: Handshake) -> HandshakeStep {
    match stage {
        Handshake::Welcome => HandshakeStep::Expect(Handshake::Prompt),
        Handshake::Prompt => HandshakeStep::Announce(Handshake::Acknowledge),
        Handshake::Acknowledge => HandshakeStep::Complete,
    }
}

/// Takes a line of the handshake. Any line but the expected one is a
/// protocol violation.
pub fn handshake_step(stage: Handshake, line: &str) -> (r: Result<HandshakeStep, RelayError>)
    ensures
        r == (if line@ == expected_line(stage) {
            Ok::<HandshakeStep, RelayError>(handshake_next(stage))
        } else {
            Err(RelayError::ProtocolViolation)
        }),
{
    let chars = chars_of(line);
    match stage {
        Handshake::Welcome => if is_text(&chars, "Welcome!") {
            Ok(HandshakeStep::Expect(Handshake::Prompt))
        } else {
            Err(RelayError::ProtocolViolation)
        },
        Handshake::Prompt => if is_text(&chars, "Login or Register") {
            Ok(HandshakeStep::Announce(Handshake::Acknowledge))
        } else {
            Err(RelayError::ProtocolViolation)
        },
        Handshake::Acknowledge => if is_text(&chars, "OK") {
            Ok(HandshakeStep::Complete)
        } else {
            Err(RelayError::ProtocolViolation)
        },
    }
}

/// The line that names this client to the server.
pub fn client_line() -> (s: String)
    ensures
        s@ == line_of(seq!["Client"@, "playtak-tei"@]),
{
    let mut ws: Vec<Vec<char>> = Vec::new();
    push_word(&mut ws, chars_of("Client"));
    push_word(&mut ws, chars_of("playtak-tei"));
    proof {
        assert(word_views(ws@) =~= seq!["Client"@, "playtak-tei"@]);
    }
    line_string(&ws)
}

/// The line that keeps the connection to the server alive.
pub fn keepalive_line() -> (s: String)
    ensures
        s@ == line_of(seq!["PING"@]),
{
    let mut ws: Vec<Vec<char>> = Vec::new();
    push_word(&mut ws, chars_of("PING"));
    line_string(&ws)
}

/// The number of seconds between two keepalive lines.
pub const KEEPALIVE_SECONDS: u64 = 30;

/// The line that ends the session with the server.
pub fn quit_line() -> (s: String)
    ensures
        s@ == line_of(seq!["quit"@]),
{
    let mut ws: Vec<Vec<char>> = Vec::new();
    push_word(&mut ws, chars_of("quit"));
    line_string(&ws)
}

/// What the server answered to the login.
#[derive(Debug)]
pub enum LoginReply {
    /// A game of this player was under way and goes on.
    Resume(Game),
    /// The player is logged in under this name.
    Welcome(String),
}

/// An answer to the login as a mathematical value.
pub enum LoginReplyView {
    Resume(GameView),
    Welcome(Seq<char>),
}

impl View for LoginReply {
    type V = LoginReplyView;

    open spec fn view(&self) -> LoginReplyView {
        match *self {
            LoginReply::Resume(game) => LoginReplyView::Resume(game@),
            LoginReply::Welcome(name) => LoginReplyView::Welcome(name@),
        }
    }
}

/// What the answer `line` to the login means. The line that reports an
/// authentication failure is that failure. A line that starts with `Game
/// Start` resumes the game that it describes. Any other line must start
/// with `Welcome`, and its second word is the login name with an
/// exclamation mark behind it.
pub open spec fn login_reply(line: Seq<char>) -> Result<LoginReplyView, RelayError> {
    let p = words(line);
    if line == "Authentication failure"@ {
        Err(RelayError::AuthFailure)
    } else if found_at(line, "Game Start"@, 0) {
        match game_of_words(p) {
            Some(g) => Ok(LoginReplyView::Resume(g)),
            None => Err(RelayError::ParseError),
        }
    } else if found_at(line, "Welcome"@, 0) && p.len() >= 2 && p[1].len() > 0 && p[1].last()
        == '!' {
        Ok(LoginReplyView::Welcome(p[1].drop_last()))
    } else {
        Err(RelayError::ProtocolViolation)
    }
}

/// Reads the answer of the server to the login.
pub fn on_login_reply(line: &str) -> (r: Result<LoginReply, RelayError>)
    ensures
        match login_reply(line@) {
            Ok(v) => r is Ok && r->Ok_0@ == v,
            Err(e) => r == Err::<LoginReply, RelayError>(e),
        },
{
    let chars = chars_of(line);
    if is_text(&chars, "Authentication failure") {
        return Err(RelayError::AuthFailure);
    }
    let parts = split_words(&chars);
    if starts_with(&chars, "Game Start") {
        return match Game::from_words(&parts) {
            Ok(game) => Ok(LoginReply::Resume(game)),
            Err(e) => Err(e),
        };
    }
    if !starts_with(&chars, "Welcome") || parts.len() < 2 {
        return Err(RelayError::ProtocolViolation);
    }
    let word = &parts[1];
    if word.len() == 0 || word[word.len() - 1] != '!' {
        return Err(RelayError::ProtocolViolation);
    }
    let mut name: Vec<char> = Vec::new();
    let mut i: usize = 0;
    while i < word.len() - 1
        invariant
            word.len() > 0,
            i <= word.len() - 1,
            name@ == word@.take(i as int),
        decreases word.len() - i,
    {
        name.push(word[i]);
        i += 1;
    }
    Ok(LoginReply::Welcome(string_of(&name)))
}

/// What a line does to a game that is being resumed, and whether it ends
/// the resumption. The line `Message Your game is resumed` ends it. A move
/// is added to the history and a time line sets both clocks, whatever game
/// the line names. Any other line is passed over.
pub open spec fn resume_reaction(g: GameView, line: Seq<char>) -> Result<
    (GameView, bool),
    RelayError,
> {
    let p = words(line);
    if line == "Message Your game is resumed"@ {
        Ok((g, true))
    } else if p.len() < 2 {
        Ok((g, false))
    } else if p[1] == seq!['P'] || p[1] == seq!['M'] {
        match wire_move_of_words(p) {
            Some(m) => Ok((GameView { moves: g.moves.push(m), ..g }, false)),
            None => Err(RelayError::ParseError),
        }
    } else if p[1] == "Time"@ {
        match clock_of_words(p) {
            Some(time) => Ok((GameView { time, ..g }, false)),
            None => Err(RelayError::ParseError),
        }
    } else {
        Ok((g, false))
    }
}

/// Takes a line that the server sent while a game is resumed, brings the
/// game up to date and says whether the resumption is over.
pub fn on_resume_line(game: &mut Game, line: &str) -> (r: Result<bool, RelayError>)
    ensures
        match resume_reaction(old(game)@, line@) {
            Ok((g, done)) => r == Ok::<bool, RelayError>(done) && final(game)@ == g,
            Err(e) => r == Err::<bool, RelayError>(e) && *final(game) == *old(game),
        },
{
    let chars = chars_of(line);
    if is_text(&chars, "Message Your game is resumed") {
        return Ok(true);
    }
    let parts = split_words(&chars);
    if parts.len() < 2 {
        return Ok(false);
    }
    let kind = &parts[1];
    proof {
        reveal_strlit("P");
        reveal_strlit("M");
        assert("P"@ =~= seq!['P']);
        assert("M"@ =~= seq!['M']);
    }
    if is_text(kind, "P") || is_text(kind, "M") {
        match GameMove::from_playtak_words(&parts) {
            Ok(played) => {
                record_move(game, played);
                Ok(false)
            },
            Err(e) => Err(e),
        }
    } else if is_text(kind, "Time") {
        if parts.len() < 4 {
            return Err(RelayError::ParseError);
        }
        match (parse_u32(&parts[2]), parse_u32(&parts[3])) {
            (Some(white), Some(black)) => {
                game.time = (white, black);
                Ok(false)
            },
            _ => Err(RelayError::ParseError),
        }
    } else {
        Ok(false)
    }
}

/// The seek that a line of the list of seeks announces: a line that starts
/// with `Seek new` announces the seek that it describes, and any other line
/// ends the list.
pub open spec fn announced_seek(line: Seq<char>) -> Result<Option<SeekView>, RelayError> {
    if found_at(line, "Seek new"@, 0) {
        match seek_of_words(words(line)) {
            Some(s) => Ok(Some(s)),
            None => Err(RelayError::ParseError),
        }
    } else {
        Ok(None)
    }
}

/// Takes a line of the list of seeks that the server sends after the login.
pub fn on_seek_line(line: &str) -> (r: Result<Option<Seek>, RelayError>)
    ensures
        match announced_seek(line@) {
            Ok(Some(s)) => r is Ok && r->Ok_0 is Some && r->Ok_0->0@ == s,
            Ok(None) => r == Ok::<Option<Seek>, RelayError>(None),
            Err(e) => r == Err::<Option<Seek>, RelayError>(e),
        },
{
    let chars = chars_of(line);
    if !starts_with(&chars, "Seek new") {
        return Ok(None);
    }
    let parts = split_words(&chars);
    match Seek::from_words(&parts) {
        Ok(seek) => Ok(Some(seek)),
        Err(e) => Err(e),
    }
}

/// The views of a list of seeks.
pub open spec fn seek_views(seeks: Seq<Seek>) -> Seq<SeekView> {
    seeks.map_values(|s: Seek| s@)
}

/// The first of `seeks` that the player `name` posted.
pub open spec fn seek_of_player(seeks: Seq<SeekView>, name: Seq<char>) -> Option<SeekView>
    decreases seeks.len(),
{
    if seeks.len() == 0 {
        None
    } else if seeks[0].player == Some(name) {
        Some(seeks[0])
    } else {
        seek_of_player(seeks.drop_first(), name)
    }
}

/// The words of the line that accepts the seek `id`.
pub open spec fn accept_words(id: u32) -> Seq<Seq<char>> {
    seq!["Accept"@, decimal(id as nat)]
}

/// The line that accepts a seek: the seek `seek_id` if one is given, and
/// else the first seek of `opponent` in the list, which must exist and have
/// a number. With neither there is nothing to send.
pub open spec fn acceptance(
    seek_id: Option<u32>,
    opponent: Option<Seq<char>>,
    seeks: Seq<SeekView>,
) -> Result<Option<Seq<char>>, RelayError> {
    match (seek_id, opponent) {
        (Some(id), _) => Ok(Some(line_of(accept_words(id)))),
        (None, Some(name)) => match seek_of_player(seeks, name) {
            Some(s) => match s.id {
                Some(id) => Ok(Some(line_of(accept_words(id)))),
                None => Err(RelayError::ProtocolViolation),
            },
            None => Err(RelayError::ProtocolViolation),
        },
        (None, None) => Ok(None),
    }
}

/// The line that accepts the seek `id`.
pub fn accept_string(id: u32) -> (s: String)
    ensures
        s@ == line_of(accept_words(id)),
{
    let mut ws: Vec<Vec<char>> = Vec::new();
    push_word(&mut ws, chars_of("Accept"));
    push_word(&mut ws, number_word(id as u64));
    proof {
        assert(word_views(ws@) =~= accept_words(id));
    }
    line_string(&ws)
}

/// Decides which seek to accept and writes the line that accepts it.
pub fn accept_line(seek_id: Option<u32>, opponent: &Option<String>, seeks: &[Seek]) -> (r: Result<
    Option<String>,
    RelayError,
>)
    ensures
        command_view(r) == acceptance(seek_id, text_view(*opponent), seek_views(seeks@)),
{
    if let Some(id) = seek_id {
        return Ok(Some(accept_string(id)));
    }
    let name = match opponent {
        Some(name) => chars_of(name.as_str()),
        None => {
            return Ok(None);
        },
    };
    let ghost views = seek_views(seeks@);
    let ghost wanted = name@;
    let mut i: usize = 0;
    proof {
        assert(views.skip(0) =~= views);
    }
    while i < seeks.len()
        invariant
            i <= seeks.len(),
            views == seek_views(seeks@),
            wanted == name@,
            seek_id is None,
            text_view(*opponent) == Some(wanted),
            seek_of_player(views, wanted) == seek_of_player(views.skip(i as int), wanted),
        decreases seeks.len() - i,
    {
        let seek = &seeks[i];
        proof {
            assert(views.skip(i as int).drop_first() =~= views.skip(i + 1));
        }
        let posted = match &seek.player {
            Some(player) => is_text(&name, player.as_str()),
            None => false,
        };
        if posted {
            return match seek.id {
                Some(id) => Ok(Some(accept_string(id))),
                None => Err(RelayError::ProtocolViolation),
            };
        }
        i += 1;
    }
    Err(RelayError::ProtocolViolation)
}

/// What a line means while the relay waits for its game to start: the line
/// `NOK` refuses the seek, a line that starts with `Game Start` starts the
/// game that it describes, and any other line is passed over.
pub open spec fn game_start(line: Seq<char>) -> Result<Option<GameView>, RelayError> {
    if line == "NOK"@ {
        Err(RelayError::ProtocolViolation)
    } else if found_at(line, "Game Start"@, 0) {
        match game_of_words(words(line)) {
            Some(g) => Ok(Some(g)),
            None => Err(RelayError::ParseError),
        }
    } else {
        Ok(None)
    }
}

/// Takes a line that the server sent while the relay waits for its game to
/// start.
pub fn on_waiting_line(line: &str) -> (r: Result<Option<Game>, RelayError>)
    ensures
        match game_start(line@) {
            Ok(Some(g)) => r is Ok && r->Ok_0 is Some && r->Ok_0->0@ == g,
            Ok(None) => r == Ok::<Option<Game>, RelayError>(None),
            Err(e) => r == Err::<Option<Game>, RelayError>(e),
        },
{
    let chars = chars_of(line);
    if is_text(&chars, "NOK") {
        return Err(RelayError::ProtocolViolation);
    }
    if !starts_with(&chars, "Game Start") {
        return Ok(None);
    }
    let parts = split_words(&chars);
    match Game::from_words(&parts) {
        Ok(game) => Ok(Some(game)),
        Err(e) => Err(e),
    }
}

} // verus!
