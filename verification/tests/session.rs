use playtak_tei::error::RelayError;
use playtak_tei::game::{Direction, Game, GameMove, PieceType, PlayerColor};
use playtak_tei::option::SpinOption;
use playtak_tei::engine::{
    engine_setup, hello_line, on_engine_init_line, to_setting_value, EngineLine,
};
use playtak_tei::relay::{on_engine_line, on_server_line, opening};
use playtak_tei::session::{
    accept_line, accept_string, client_line, handshake_step, keepalive_line, on_login_reply,
    on_resume_line, on_seek_line, on_waiting_line, quit_line, Handshake, HandshakeStep,
    LoginReply, KEEPALIVE_SECONDS,
};
use playtak_tei::seek::Seek;

const START: &str = "Game Start 645331 6 alice vs bob white 600 4 30 1 0 0";

fn game() -> Game {
    Game::from_str(START).unwrap()
}

fn snapshot(g: &Game) -> (u32, u32, String, PlayerColor, (u32, u32), u32, u32, u32, Vec<GameMove>) {
    (
        g.id,
        g.size,
        g.opponent.clone(),
        g.color,
        g.time,
        g.half_komi,
        g.flatstones,
        g.capstones,
        g.moves.clone(),
    )
}

fn option(name: &str, default: i32) -> SpinOption {
    SpinOption { name: name.to_string(), default, min: 0, max: 100 }
}

#[test]
fn game_reads_a_start_line() {
    let g = game();
    assert_eq!(g.id, 645331);
    assert_eq!(g.size, 6);
    assert_eq!(g.opponent, "bob");
    assert_eq!(g.color, PlayerColor::White);
    assert_eq!(g.time, (600, 600));
    assert_eq!(g.half_komi, 4);
    assert_eq!(g.flatstones, 30);
    assert_eq!(g.capstones, 1);
    assert!(g.moves.is_empty());

    let g = Game::from_str("Game Start 1 5 alice vs bob black 60 0 21 1").unwrap();
    assert_eq!(g.opponent, "alice");
    assert_eq!(g.color, PlayerColor::Black);
}

#[test]
fn game_rejects_malformed_start_lines() {
    for line in [
        "",
        "Game Start",
        "Game Start 1 5 alice vs bob white 60 0 21",
        "Game Start 1 5 alice vs bob red 60 0 21 1",
        "Game Start 1 5 alice vs bob White 60 0 21 1",
        "Game Start x 5 alice vs bob white 60 0 21 1",
        "Game Start 1 x alice vs bob white 60 0 21 1",
        "Game Start 1 5 alice vs bob white x 0 21 1",
        "Game Start 1 5 alice vs bob white 60 x 21 1",
        "Game Start 1 5 alice vs bob white 60 0 x 1",
        "Game Start 1 5 alice vs bob white 60 0 21 x",
        "Game Start 1 5 alice vs bob white 60 0 21 -1",
    ] {
        assert_eq!(Game::from_str(line).err(), Some(RelayError::ParseError), "{:?}", line);
    }
}

#[test]
fn engine_commands() {
    let mut g = game();
    assert_eq!(g.new_game_string(), "teinewgame 6\n");
    assert_eq!(g.search_string(), "go wtime 600000 btime 600000\n");
    assert_eq!(g.position_string(), "position startpos moves\n");
    g.time = (12, 3456);
    assert_eq!(g.search_string(), "go wtime 12000 btime 3456000\n");
    g.time = (u32::MAX, 0);
    assert_eq!(g.search_string(), "go wtime 4294967295000 btime 0\n");
    g.moves.push(GameMove::Place { x: 0, y: 0, piece_type: PieceType::Flatstone });
    g.moves.push(GameMove::Place { x: 5, y: 5, piece_type: PieceType::Capstone });
    g.moves.push(GameMove::Spread { x: 0, y: 0, direction: Direction::North, drops: vec![1] });
    g.moves.push(GameMove::Spread { x: 1, y: 1, direction: Direction::East, drops: vec![1, 2, 2] });
    assert!(g.is_replayable());
    assert_eq!(g.position_string(), "position startpos moves a1 Cf6 a1+ 5b2>122\n");
    g.moves.push(GameMove::Spread { x: 1, y: 1, direction: Direction::East, drops: vec![10, 1] });
    assert!(!g.is_replayable());
}

#[test]
fn turns_alternate_from_white() {
    let mut white = game();
    let mut black = Game::from_str("Game Start 1 5 alice vs bob black 60 0 21 1").unwrap();
    assert!(white.our_turn());
    assert!(!black.our_turn());
    for g in [&mut white, &mut black] {
        g.moves.push(GameMove::Place { x: 0, y: 0, piece_type: PieceType::Flatstone });
    }
    assert!(!white.our_turn());
    assert!(black.our_turn());
}

#[test]
fn handshake_follows_the_banner() {
    assert_eq!(
        handshake_step(Handshake::Welcome, "Welcome!"),
        Ok(HandshakeStep::Expect(Handshake::Prompt))
    );
    assert_eq!(
        handshake_step(Handshake::Prompt, "Login or Register"),
        Ok(HandshakeStep::Announce(Handshake::Acknowledge))
    );
    assert_eq!(handshake_step(Handshake::Acknowledge, "OK"), Ok(HandshakeStep::Complete));
    assert_eq!(client_line(), "Client playtak-tei\n");
}

#[test]
fn fixed_lines() {
    assert_eq!(keepalive_line(), "PING\n");
    assert_eq!(quit_line(), "quit\n");
    assert_eq!(hello_line(), "tei\n");
    assert_eq!(KEEPALIVE_SECONDS, 30);
}

#[test]
fn handshake_rejects_any_other_line() {
    for stage in [Handshake::Welcome, Handshake::Prompt, Handshake::Acknowledge] {
        for line in ["", "welcome!", "Welcome! ", "NOK", "OK ", "Login or Register."] {
            assert_eq!(handshake_step(stage, line), Err(RelayError::ProtocolViolation));
        }
    }
    assert_eq!(handshake_step(Handshake::Welcome, "OK"), Err(RelayError::ProtocolViolation));
    assert_eq!(handshake_step(Handshake::Prompt, "Welcome!"), Err(RelayError::ProtocolViolation));
    assert_eq!(
        handshake_step(Handshake::Acknowledge, "Login or Register"),
        Err(RelayError::ProtocolViolation)
    );
}

#[test]
fn login_reply_welcome() {
    match on_login_reply("Welcome alice!") {
        Ok(LoginReply::Welcome(name)) => assert_eq!(name, "alice"),
        other => panic!("{:?}", other),
    }
    match on_login_reply("Welcome  Guest42!  ") {
        Ok(LoginReply::Welcome(name)) => assert_eq!(name, "Guest42"),
        other => panic!("{:?}", other),
    }
    match on_login_reply("Welcome bob!!") {
        Ok(LoginReply::Welcome(name)) => assert_eq!(name, "bob!"),
        other => panic!("{:?}", other),
    }
    match on_login_reply("Welcome !") {
        Ok(LoginReply::Welcome(name)) => assert_eq!(name, ""),
        other => panic!("{:?}", other),
    }
}

#[test]
fn login_reply_failures() {
    assert_eq!(on_login_reply("Authentication failure").err(), Some(RelayError::AuthFailure));
    assert_eq!(on_login_reply("Authentication failure ").err(), Some(RelayError::ProtocolViolation));
    assert_eq!(on_login_reply("").err(), Some(RelayError::ProtocolViolation));
    assert_eq!(on_login_reply("Hello alice!").err(), Some(RelayError::ProtocolViolation));
    assert_eq!(on_login_reply("Welcome").err(), Some(RelayError::ProtocolViolation));
    assert_eq!(on_login_reply("Welcome!").err(), Some(RelayError::ProtocolViolation));
    assert_eq!(on_login_reply("Welcome alice").err(), Some(RelayError::ProtocolViolation));
    assert_eq!(on_login_reply("Game Start nothing").err(), Some(RelayError::ParseError));
}

#[test]
fn login_reply_resumes_a_game() {
    match on_login_reply(START) {
        Ok(LoginReply::Resume(g)) => assert_eq!(snapshot(&g), snapshot(&game())),
        other => panic!("{:?}", other),
    }
}

#[test]
fn resume_applies_moves_and_clocks() {
    let mut g = game();
    assert_eq!(on_resume_line(&mut g, "Game#645331 P A1"), Ok(false));
    assert_eq!(on_resume_line(&mut g, "Game#645331 Time 590 585"), Ok(false));
    assert_eq!(on_resume_line(&mut g, "Game#1 M A1 A3 1 1"), Ok(false));
    assert_eq!(on_resume_line(&mut g, "Message hello"), Ok(false));
    assert_eq!(on_resume_line(&mut g, "Online 12"), Ok(false));
    assert_eq!(on_resume_line(&mut g, ""), Ok(false));
    assert_eq!(on_resume_line(&mut g, "Game#645331"), Ok(false));
    assert_eq!(on_resume_line(&mut g, "Message Your game is resumed"), Ok(true));
    assert_eq!(g.time, (590, 585));
    assert_eq!(
        g.moves,
        vec![
            GameMove::Place { x: 0, y: 0, piece_type: PieceType::Flatstone },
            GameMove::Spread { x: 0, y: 0, direction: Direction::North, drops: vec![1, 1] },
        ]
    );
}

#[test]
fn resume_fails_on_malformed_lines() {
    let mut g = game();
    let before = snapshot(&g);
    for line in ["Game#1 P", "Game#1 P Z1", "Game#1 M A1", "Game#1 M A1 A2", "Game#1 Time", "Game#1 Time 1", "Game#1 Time 1 x", "Game#1 Time x 1"] {
        assert_eq!(on_resume_line(&mut g, line), Err(RelayError::ParseError), "{:?}", line);
        assert_eq!(snapshot(&g), before);
    }
}

#[test]
fn seek_list_ends_at_the_first_other_line() {
    let first = on_seek_line("Seek new 42 bob 6 900 15 W 4 30 1 0 1 0 0").unwrap().unwrap();
    assert_eq!(first.id, Some(42));
    assert_eq!(first.player.as_deref(), Some("bob"));
    assert!(on_seek_line("Online 12").unwrap().is_none());
    assert!(on_seek_line("").unwrap().is_none());
    assert!(on_seek_line("Seek remove 42 bob").unwrap().is_none());
    assert!(on_seek_line(" Seek new 42 bob 6 900 15 W 4 30 1 0 1 0 0").unwrap().is_none());
    assert_eq!(on_seek_line("Seek new 42").err(), Some(RelayError::ParseError));
    assert_eq!(on_seek_line("Seek newest").err(), Some(RelayError::ParseError));
}

#[test]
fn accept_by_number_or_by_player() {
    let seeks: Vec<Seek> = [
        "Seek new 42 bob 6 900 15 W 4 30 1 0 1 0 0",
        "Seek new 43 carol 5 900 15 W 4 21 1 0 1 0 0",
        "Seek new 44 bob 5 900 15 W 4 21 1 0 1 0 0",
    ]
    .iter()
    .map(|line| Seek::from_str(line).unwrap())
    .collect();
    assert_eq!(accept_string(42), "Accept 42\n");
    assert_eq!(accept_line(Some(7), &None, &seeks), Ok(Some("Accept 7\n".to_string())));
    assert_eq!(
        accept_line(Some(7), &Some("bob".to_string()), &seeks),
        Ok(Some("Accept 7\n".to_string()))
    );
    assert_eq!(
        accept_line(None, &Some("bob".to_string()), &seeks),
        Ok(Some("Accept 42\n".to_string()))
    );
    assert_eq!(
        accept_line(None, &Some("carol".to_string()), &seeks),
        Ok(Some("Accept 43\n".to_string()))
    );
    assert_eq!(
        accept_line(None, &Some("dave".to_string()), &seeks),
        Err(RelayError::ProtocolViolation)
    );
    assert_eq!(accept_line(None, &Some("bob".to_string()), &[]), Err(RelayError::ProtocolViolation));
    assert_eq!(accept_line(None, &None, &seeks), Ok(None));
    let mut unnumbered = seeks;
    unnumbered[0].id = None;
    assert_eq!(
        accept_line(None, &Some("bob".to_string()), &unnumbered),
        Err(RelayError::ProtocolViolation)
    );
}

#[test]
fn waiting_for_the_game() {
    assert!(on_waiting_line("Seek new 1 x").unwrap().is_none());
    assert!(on_waiting_line("").unwrap().is_none());
    assert!(on_waiting_line("NOK ").unwrap().is_none());
    assert_eq!(on_waiting_line("NOK").err(), Some(RelayError::ProtocolViolation));
    assert_eq!(on_waiting_line("Game Start 1").err(), Some(RelayError::ParseError));
    let g = on_waiting_line(START).unwrap().unwrap();
    assert_eq!(snapshot(&g), snapshot(&game()));
}

#[test]
fn engine_start_up_lines() {
    match on_engine_init_line("id name Tiltak 1.0") {
        Ok(EngineLine::Name(name)) => assert_eq!(name, "Tiltak 1.0"),
        other => panic!("{:?}", other),
    }
    match on_engine_init_line("id name ") {
        Ok(EngineLine::Name(name)) => assert_eq!(name, ""),
        other => panic!("{:?}", other),
    }
    assert!(matches!(on_engine_init_line("id name"), Ok(EngineLine::Other)));
    assert!(matches!(on_engine_init_line("id nameless"), Ok(EngineLine::Other)));
    assert!(matches!(on_engine_init_line("id author someone"), Ok(EngineLine::Other)));
    assert!(matches!(on_engine_init_line("teiok"), Ok(EngineLine::Ready)));
    assert!(matches!(on_engine_init_line("teiok "), Ok(EngineLine::Other)));
    assert!(matches!(on_engine_init_line(""), Ok(EngineLine::Other)));
    assert!(matches!(
        on_engine_init_line("option name Mode type combo default a var a var b"),
        Ok(EngineLine::Other)
    ));
    match on_engine_init_line("option name HalfKomi type spin default 2 min -10 max 10") {
        Ok(EngineLine::Setting(o)) => {
            assert_eq!(o.name, "HalfKomi");
            assert_eq!((o.default, o.min, o.max), (2, -10, 10));
        }
        other => panic!("{:?}", other),
    }
    assert_eq!(
        on_engine_init_line("option name HalfKomi type spin default two").err(),
        Some(RelayError::ParseError)
    );
}

#[test]
fn engine_setup_negotiates_three_settings() {
    let g = game();
    let all = vec![option("HalfKomi", 0), option("Flatstones", 30), option("Capstones", 2)];
    assert_eq!(
        engine_setup(&g, &all),
        Ok(vec![
            "setoption name HalfKomi value 4\n".to_string(),
            "setoption name Capstones value 1\n".to_string(),
        ])
    );
    let komi_only = vec![option("HalfKomi", 4)];
    assert_eq!(engine_setup(&g, &komi_only), Ok(vec![]));
    assert_eq!(engine_setup(&g, &[]), Err(RelayError::OptionMismatch));
    let mut plain = game();
    plain.half_komi = 0;
    assert_eq!(engine_setup(&plain, &[]), Ok(vec![]));
    plain.capstones = 0;
    assert_eq!(engine_setup(&plain, &[]), Err(RelayError::OptionMismatch));
    assert_eq!(
        engine_setup(&plain, &[option("Capstones", 1)]),
        Ok(vec!["setoption name Capstones value 0\n".to_string()])
    );
    plain.flatstones = 31;
    assert_eq!(engine_setup(&plain, &[option("Capstones", 1)]), Err(RelayError::OptionMismatch));
}

#[test]
fn setting_values_keep_the_bits() {
    assert_eq!(to_setting_value(0), 0);
    assert_eq!(to_setting_value(30), 30);
    assert_eq!(to_setting_value(2147483647), i32::MAX);
    assert_eq!(to_setting_value(2147483648), i32::MIN);
    assert_eq!(to_setting_value(u32::MAX), -1);
}

#[test]
fn opening_primes_the_engine_on_our_turn() {
    let mut g = game();
    assert_eq!(
        opening(&g),
        Ok(vec![
            "teinewgame 6\n".to_string(),
            "position startpos moves\n".to_string(),
            "go wtime 600000 btime 600000\n".to_string(),
        ])
    );
    g.moves.push(GameMove::Place { x: 0, y: 0, piece_type: PieceType::Flatstone });
    assert_eq!(opening(&g), Ok(vec![]));
    g.moves.push(GameMove::Spread { x: 0, y: 0, direction: Direction::East, drops: vec![11, 1] });
    assert_eq!(opening(&g), Err(RelayError::ParseError));
    g.color = PlayerColor::Black;
    assert_eq!(opening(&g), Ok(vec![]));
}

#[test]
fn server_line_for_another_game_changes_nothing() {
    let mut g = game();
    g.moves.push(GameMove::Place { x: 0, y: 0, piece_type: PieceType::Flatstone });
    let before = snapshot(&g);
    for line in [
        "Game#123456 P A1",
        "Game#123456 M B4 F4 2 1 2 1",
        "Game#64533 P A1",
        "Game#6453310 P A1",
        "Game#0645331 P A1",
        "game#645331 P A1",
        "Game#123456 Time 1 2",
        "Game#123456 Over 1-0",
        "Game#123456 P nonsense",
        "Game#123456 Time x y",
        "NOK",
        "",
        "Online 7",
        "Game#645331",
    ] {
        let reply = on_server_line(&mut g, line).unwrap();
        assert!(reply.to_engine.is_empty(), "{:?}", line);
        assert!(reply.to_server.is_empty(), "{:?}", line);
        assert!(!reply.game_over, "{:?}", line);
        assert_eq!(snapshot(&g), before, "{:?}", line);
    }
}

#[test]
fn server_move_is_replayed_to_the_engine() {
    let mut g = game();
    let reply = on_server_line(&mut g, "Game#645331 P C6 C").unwrap();
    assert_eq!(
        reply.to_engine,
        vec!["position startpos moves Cc6\n".to_string(), "go wtime 600000 btime 600000\n".to_string()]
    );
    assert!(reply.to_server.is_empty());
    assert!(!reply.game_over);
    assert_eq!(g.moves, vec![GameMove::Place { x: 2, y: 5, piece_type: PieceType::Capstone }]);

    let reply = on_server_line(&mut g, "Game#645331 Time 599 580").unwrap();
    assert!(reply.to_engine.is_empty() && reply.to_server.is_empty() && !reply.game_over);
    assert_eq!(g.time, (599, 580));

    let reply = on_server_line(&mut g, "Game#645331 M C6 C4 1 1").unwrap();
    assert_eq!(
        reply.to_engine,
        vec![
            "position startpos moves Cc6 2c6-11\n".to_string(),
            "go wtime 599000 btime 580000\n".to_string(),
        ]
    );
    assert_eq!(g.moves.len(), 2);
}

#[test]
fn server_line_ends_the_game_or_is_passed_over() {
    let mut g = game();
    let before = snapshot(&g);
    let reply = on_server_line(&mut g, "Game#645331 Over 1-0").unwrap();
    assert!(reply.game_over);
    assert!(reply.to_engine.is_empty() && reply.to_server.is_empty());
    assert_eq!(snapshot(&g), before);
    let reply = on_server_line(&mut g, "Game#645331 Over").unwrap();
    assert!(reply.game_over);
    for line in ["Game#645331 OfferDraw", "Game#645331 Abandoned. bob quit", "Game#645331 Undo"] {
        let reply = on_server_line(&mut g, line).unwrap();
        assert!(reply.to_engine.is_empty() && reply.to_server.is_empty() && !reply.game_over);
        assert_eq!(snapshot(&g), before);
    }
}

#[test]
fn server_line_with_a_malformed_field_fails() {
    let mut g = game();
    let before = snapshot(&g);
    for line in [
        "Game#645331 Time",
        "Game#645331 Time 1",
        "Game#645331 Time 1 x",
        "Game#645331 Time -1 1",
        "Game#645331 P",
        "Game#645331 P Z9",
        "Game#645331 P A1 X",
        "Game#645331 M A1 B2 1",
        "Game#645331 M A1 A2",
        "Game#645331 M A1 A2 x",
        "Game#645331 M A1 A3 10 1",
    ] {
        assert_eq!(on_server_line(&mut g, line).err(), Some(RelayError::ParseError), "{:?}", line);
        assert_eq!(snapshot(&g), before, "{:?}", line);
    }
}

#[test]
fn engine_best_move_goes_to_the_server() {
    let mut g = game();
    let reply = on_engine_line(&mut g, "bestmove a1").unwrap();
    assert_eq!(reply.to_server, vec!["Game#645331 P A1\n".to_string()]);
    assert!(reply.to_engine.is_empty());
    assert!(!reply.game_over);
    let reply = on_engine_line(&mut g, "bestmove 3c3>12 ponder a1").unwrap();
    assert_eq!(reply.to_server, vec!["Game#645331 M C3 E3 1 2\n".to_string()]);
    assert_eq!(
        g.moves,
        vec![
            GameMove::Place { x: 0, y: 0, piece_type: PieceType::Flatstone },
            GameMove::Spread { x: 2, y: 2, direction: Direction::East, drops: vec![1, 2] },
        ]
    );
}

#[test]
fn engine_line_without_a_best_move_is_passed_over() {
    let mut g = game();
    let before = snapshot(&g);
    for line in ["", "info depth 3 score cp 12", "bestmov a1", "Bestmove a1", " info bestmove a1"] {
        let reply = on_engine_line(&mut g, line).unwrap();
        assert!(reply.to_engine.is_empty() && reply.to_server.is_empty() && !reply.game_over);
        assert_eq!(snapshot(&g), before);
    }
}

#[test]
fn engine_best_move_must_be_a_move_on_the_board() {
    let mut g = game();
    let before = snapshot(&g);
    for line in ["bestmove", "bestmove z1", "bestmove a1?", "bestmove a1-", "bestmove h1>", "bestmove a9+", "bestmove a1<"] {
        assert_eq!(on_engine_line(&mut g, line).err(), Some(RelayError::ParseError), "{:?}", line);
        assert_eq!(snapshot(&g), before);
    }
}
