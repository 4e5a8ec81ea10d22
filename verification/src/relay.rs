//! The game loop: what each line of the server or of the engine does to the
//! game and what the relay sends in reply.

use vstd::prelude::*;

use crate::error::RelayError;
use crate::game::{
    move_views, new_game_words, position_words, replayable, search_words, turn_of, Game, GameMove,
    GameView, MoveView,
};
use crate::number::{parse_u32, u32_of};
use crate::playtak::{
    game_tag, game_tag_word, lemma_game_tags_differ, lemma_wire_words, wire_move_of_words,
    wire_text, wire_writable,
};
use crate::ptn::{ptn_move, ptn_writable};
use crate::text::{chars_of, is_text, line_of, same_chars, split_words, words};

verus! {

/// What the relay has to do after it has read a line.
#[derive(Debug)]
pub struct Reply {
    /// The lines to send to the engine, in order.
    pub to_engine: Vec<String>,
    /// The lines to send to the server, in order.
    pub to_server: Vec<String>,
    /// Whether the game has ended.
    pub game_over: bool,
}

/// A reply as a mathematical value.
pub struct ReplyView {
    pub to_engine: Seq<Seq<char>>,
    pub to_server: Seq<Seq<char>>,
    pub game_over: bool,
}

/// The characters of each of a list of lines.
pub open spec fn line_views(lines: Seq<String>) -> Seq<Seq<char>> {
    lines.map_values(|s: String| s@)
}

impl View for Reply {
    type V = ReplyView;

    open spec fn view(&self) -> ReplyView {
        ReplyView {
            to_engine: line_views(self.to_engine@),
            to_server: line_views(self.to_server@),
            game_over: self.game_over,
        }
    }
}

/// The reply that sends nothing and goes on.
pub open spec fn silence() -> ReplyView {
    ReplyView { to_engine: Seq::empty(), to_server: Seq::empty(), game_over: false }
}

/// The two clocks that the words of a time line give, in its third and
/// fourth word.
pub open spec fn clock_of_words(p: Seq<Seq<char>>) -> Option<(u32, u32)> {
    if p.len() >= 4 && u32_of(p[2]) is Some && u32_of(p[3]) is Some {
        Some((u32_of(p[2])->0, u32_of(p[3])->0))
    } else {
        None
    }
}

/// What a line of the server does to the game, and what the relay replies.
/// A line that does not start with the tag of this game and a second word
/// is passed over. A time line sets both clocks. A move is added to the
/// history, which is then replayed to the engine together with a search
/// command that carries the clocks. The word `Over` ends the game. Any
/// other line about this game is passed over.
pub open spec fn server_reaction(g: GameView, line: Seq<char>) -> Result<
    (GameView, ReplyView),
    RelayError,
> {
    let p = words(line);
    if p.len() < 2 || p[0] != game_tag(g.id) {
        Ok((g, silence()))
    } else if p[1] == "Time"@ {
        match clock_of_words(p) {
            Some(time) => Ok((GameView { time, ..g }, silence())),
            None => Err(RelayError::ParseError),
        }
    } else if p[1] == seq!['P'] || p[1] == seq!['M'] {
        match wire_move_of_words(p) {
            Some(m) => {
                let moves = g.moves.push(m);
                if replayable(moves) {
                    Ok(
                        (
                            GameView { moves, ..g },
                            ReplyView {
                                to_engine: seq![
                                    line_of(position_words(moves)),
                                    line_of(search_words(g.time)),
                                ],
                                to_server: Seq::empty(),
                                game_over: false,
                            },
                        ),
                    )
                } else {
                    Err(RelayError::ParseError)
                }
            },
            None => Err(RelayError::ParseError),
        }
    } else if p[1] == "Over"@ {
        Ok((g, ReplyView { to_engine: Seq::empty(), to_server: Seq::empty(), game_over: true }))
    } else {
        Ok((g, silence()))
    }
}

/// What a line of the engine does to the game, and what the relay replies.
/// Only a line whose first word is `bestmove` counts: its second word is a
/// move in algebraic notation, which is added to the history and sent to
/// the server in wire notation.
pub open spec fn engine_reaction(g: GameView, line: Seq<char>) -> Result<
    (GameView, ReplyView),
    RelayError,
> {
    let p = words(line);
    if p.len() == 0 || p[0] != "bestmove"@ {
        Ok((g, silence()))
    } else if p.len() < 2 {
        Err(RelayError::ParseError)
    } else {
        match ptn_move(p[1]) {
            Some(m) => if wire_writable(m) {
                Ok(
                    (
                        GameView { moves: g.moves.push(m), ..g },
                        ReplyView {
                            to_engine: Seq::empty(),
                            to_server: seq![wire_text(m, g.id)],
                            game_over: false,
                        },
                    ),
                )
            } else {
                Err(RelayError::ParseError)
            },
            None => Err(RelayError::ParseError),
        }
    }
}

/// A history stays replayable under a new move exactly if that move can be
/// written in algebraic notation.
pub proof fn lemma_replayable_push(moves: Seq<MoveView>, m: MoveView)
    ensures
        replayable(moves.push(m)) == (replayable(moves) && ptn_writable(m)),
{
    let longer = moves.push(m);
    if replayable(moves) && ptn_writable(m) {
        assert forall|i: int| 0 <= i < longer.len() implies ptn_writable(#[trigger] longer[i]) by {}
    }
    if replayable(longer) {
        assert(longer[moves.len() as int] == m);
        assert forall|i: int| 0 <= i < moves.len() implies ptn_writable(#[trigger] moves[i]) by {
            assert(longer[i] == moves[i]);
        }
    }
}

/// The reply that sends nothing and goes on.
pub fn no_reply() -> (r: Reply)
    ensures
        r@ == silence(),
{
    let r = Reply { to_engine: Vec::new(), to_server: Vec::new(), game_over: false };
    proof {
        assert(line_views(r.to_engine@) =~= Seq::<Seq<char>>::empty());
    }
    r
}

/// Adds a move to the end of the history of a game.
pub fn record_move(game: &mut Game, played: GameMove)
    ensures
        final(game)@ == (GameView { moves: old(game)@.moves.push(played@), ..old(game)@ }),
{
    proof {
        assert(move_views(game.moves@.push(played)) =~= move_views(game.moves@).push(played@));
    }
    game.moves.push(played);
}

/// Takes a line that the server sent during the game, brings the game up to
/// date and says what to send to the engine. A line about another game
/// changes nothing.
pub fn on_server_line(game: &mut Game, line: &str) -> (r: Result<Reply, RelayError>)
    ensures
        match server_reaction(old(game)@, line@) {
            Ok((g, reply)) => r is Ok && r->Ok_0@ == reply && final(game)@ == g,
            Err(e) => r == Err::<Reply, RelayError>(e) && *final(game) == *old(game),
        },
        (words(line@).len() == 0 || words(line@)[0] != game_tag(old(game).id)) ==> (*final(game)
            == *old(game) && r is Ok && r->Ok_0@ == silence()),
{
    let chars = chars_of(line);
    let parts = split_words(&chars);
    if parts.len() < 2 {
        return Ok(no_reply());
    }
    let tag = game_tag_word(game.id);
    if !same_chars(&parts[0], &tag) {
        return Ok(no_reply());
    }
    let kind = &parts[1];
    proof {
        reveal_strlit("P");
        reveal_strlit("M");
        assert("P"@ =~= seq!['P']);
        assert("M"@ =~= seq!['M']);
    }
    if is_text(kind, "Time") {
        if parts.len() < 4 {
            return Err(RelayError::ParseError);
        }
        match (parse_u32(&parts[2]), parse_u32(&parts[3])) {
            (Some(white), Some(black)) => {
                game.time = (white, black);
                Ok(no_reply())
            },
            _ => Err(RelayError::ParseError),
        }
    } else if is_text(kind, "P") || is_text(kind, "M") {
        let played = match GameMove::from_playtak_words(&parts) {
            Ok(played) => played,
            Err(e) => {
                return Err(e);
            },
        };
        proof {
            lemma_replayable_push(game@.moves, played@);
        }
        if !(game.is_replayable() && played.is_ptn_writable()) {
            return Err(RelayError::ParseError);
        }
        record_move(game, played);
        let position = game.position_string();
        let search = game.search_string();
        let mut to_engine: Vec<String> = Vec::new();
        to_engine.push(position);
        to_engine.push(search);
        let reply = Reply { to_engine, to_server: Vec::new(), game_over: false };
        proof {
            assert(line_views(reply.to_engine@) =~= seq![position@, search@]);
            assert(line_views(reply.to_server@) =~= Seq::<Seq<char>>::empty());
        }
        Ok(reply)
    } else if is_text(kind, "Over") {
        let reply = Reply { to_engine: Vec::new(), to_server: Vec::new(), game_over: true };
        proof {
            assert(line_views(reply.to_engine@) =~= Seq::<Seq<char>>::empty());
        }
        Ok(reply)
    } else {
        Ok(no_reply())
    }
}

/// Takes a line that the engine printed during the game, brings the game up
/// to date and says what to send to the server.
pub fn on_engine_line(game: &mut Game, line: &str) -> (r: Result<Reply, RelayError>)
    ensures
        match engine_reaction(old(game)@, line@) {
            Ok((g, reply)) => r is Ok && r->Ok_0@ == reply && final(game)@ == g,
            Err(e) => r == Err::<Reply, RelayError>(e) && *final(game) == *old(game),
        },
{
    let chars = chars_of(line);
    let parts = split_words(&chars);
    if parts.len() == 0 {
        return Ok(no_reply());
    }
    if !is_text(&parts[0], "bestmove") {
        return Ok(no_reply());
    }
    if parts.len() < 2 {
        return Err(RelayError::ParseError);
    }
    let played = match GameMove::from_ptn_chars(&parts[1]) {
        Ok(played) => played,
        Err(e) => {
            return Err(e);
        },
    };
    if !played.is_wire_writable() {
        return Err(RelayError::ParseError);
    }
    let sent = played.to_playtak(game.id);
    record_move(game, played);
    let mut to_server: Vec<String> = Vec::new();
    to_server.push(sent);
    let reply = Reply { to_engine: Vec::new(), to_server, game_over: false };
    proof {
        assert(line_views(reply.to_engine@) =~= Seq::<Seq<char>>::empty());
        assert(line_views(reply.to_server@) =~= seq![sent@]);
    }
    Ok(reply)
}

/// A move that the server reports for another game changes nothing in this
/// game, and nothing is sent.
pub proof fn lemma_other_game_ignored(g: GameView, m: MoveView, id: u32)
    requires
        wire_writable(m),
        id != g.id,
    ensures
        server_reaction(g, wire_text(m, id)) == Ok::<(GameView, ReplyView), RelayError>(
            (g, silence()),
        ),
{
    lemma_wire_words(m, id);
    lemma_game_tags_differ(id, g.id);
}

/// The characters of each line of a list, or the error in its place.
pub open spec fn lines_view(r: Result<Vec<String>, RelayError>) -> Result<
    Seq<Seq<char>>,
    RelayError,
> {
    match r {
        Ok(lines) => Ok(line_views(lines@)),
        Err(e) => Err(e),
    }
}

/// The commands that start the engine on the game `g` when the game loop
/// begins. If it is our turn, the engine is told of a new game, of every
/// move played so far, and to search; the moves must all be writable in
/// algebraic notation. If it is not, nothing is sent.
pub open spec fn opening_commands(g: GameView) -> Result<Seq<Seq<char>>, RelayError> {
    if !turn_of(g.color, g.moves.len()) {
        Ok(Seq::empty())
    } else if replayable(g.moves) {
        Ok(
            seq![
                line_of(new_game_words(g.size)),
                line_of(position_words(g.moves)),
                line_of(search_words(g.time)),
            ],
        )
    } else {
        Err(RelayError::ParseError)
    }
}

/// Decides what to send to the engine when the game loop begins.
pub fn opening(game: &Game) -> (r: Result<Vec<String>, RelayError>)
    ensures
        lines_view(r) == opening_commands(game@),
{
    let mut lines: Vec<String> = Vec::new();
    if !game.our_turn() {
        proof {
            assert(line_views(lines@) =~= Seq::<Seq<char>>::empty());
        }
        return Ok(lines);
    }
    if !game.is_replayable() {
        return Err(RelayError::ParseError);
    }
    let new_game = game.new_game_string();
    let position = game.position_string();
    let search = game.search_string();
    lines.push(new_game);
    lines.push(position);
    lines.push(search);
    proof {
        assert(line_views(lines@) =~= seq![new_game@, position@, search@]);
    }
    Ok(lines)
}

} // verus!
