use playtak_tei::error::RelayError;
use playtak_tei::login::Login;
use playtak_tei::option::{validate_and_set_option, SpinOption};
use playtak_tei::seek::{capstones_for_size, flatstones_for_size, is_valid_size, Seek, SeekColor};

fn option(name: &str, default: i32, min: i32, max: i32) -> SpinOption {
    SpinOption { name: name.to_string(), default, min, max }
}

fn seek(size: u32) -> Seek {
    Seek {
        id: None,
        player: None,
        size,
        time: 1200,
        increment: 20,
        color: SeekColor::Random,
        half_komi: 0,
        flatstones: None,
        capstones: None,
        unrated: false,
        tournament: false,
        extra_time_move: None,
        extra_time_amount: None,
        opponent: None,
    }
}

#[test]
fn usual_piece_numbers() {
    let flatstones: Vec<u32> = (3..=8).map(flatstones_for_size).collect();
    assert_eq!(flatstones, vec![10, 15, 21, 30, 40, 50]);
    let capstones: Vec<u32> = (3..=8).map(capstones_for_size).collect();
    assert_eq!(capstones, vec![0, 0, 1, 1, 2, 2]);
    assert!(!is_valid_size(2));
    assert!(is_valid_size(3));
    assert!(is_valid_size(8));
    assert!(!is_valid_size(9));
}

#[test]
fn seek_piece_numbers_default_to_the_board_size() {
    let mut s = seek(6);
    assert_eq!(s.flatstones(), 30);
    assert_eq!(s.capstones(), 1);
    s.flatstones = Some(25);
    s.capstones = Some(0);
    assert_eq!(s.flatstones(), 25);
    assert_eq!(s.capstones(), 0);
    let mut odd = seek(11);
    assert!(!odd.is_postable());
    odd.flatstones = Some(1);
    assert!(!odd.is_postable());
    odd.capstones = Some(1);
    assert!(odd.is_postable());
}

#[test]
fn seek_posts_twelve_fields() {
    assert_eq!(seek(5).to_seek_string(), "Seek 5 1200 20 A 0 21 1 0 0 0 0 \n");
    let mut s = seek(6);
    s.time = 600;
    s.increment = 10;
    s.color = SeekColor::White;
    s.half_komi = 4;
    s.flatstones = Some(28);
    s.unrated = true;
    s.tournament = true;
    s.extra_time_move = Some(30);
    s.extra_time_amount = Some(300);
    s.opponent = Some("alice".to_string());
    assert_eq!(s.to_seek_string(), "Seek 6 600 10 W 4 28 1 1 1 30 300 alice\n");
    s.color = SeekColor::Black;
    s.unrated = false;
    assert_eq!(s.to_seek_string(), "Seek 6 600 10 B 4 28 1 0 1 30 300 alice\n");
}

#[test]
fn seek_reads_an_announcement() {
    let s = Seek::from_str("Seek new 42 bob 6 900 15 W 4 30 1 0 1 0 0").unwrap();
    assert_eq!(s.id, Some(42));
    assert_eq!(s.player.as_deref(), Some("bob"));
    assert_eq!(s.size, 6);
    assert_eq!(s.time, 900);
    assert_eq!(s.increment, 15);
    assert_eq!(s.color, SeekColor::White);
    assert_eq!(s.half_komi, 4);
    assert_eq!(s.flatstones, Some(30));
    assert_eq!(s.capstones, Some(1));
    assert!(!s.unrated);
    assert!(s.tournament);
    assert_eq!(s.extra_time_move, None);
    assert_eq!(s.extra_time_amount, None);
    assert_eq!(s.opponent, None);

    let s = Seek::from_str("Seek new 7 carol 5 60 0 A 0 21 1 1 0 20 120 dave").unwrap();
    assert_eq!(s.color, SeekColor::Random);
    assert!(s.unrated);
    assert!(!s.tournament);
    assert_eq!(s.extra_time_move, Some(20));
    assert_eq!(s.extra_time_amount, Some(120));
    assert_eq!(s.opponent.as_deref(), Some("dave"));

    let s = Seek::from_str("Seek new 7 carol 5 60 0 B 0 21 1 1 0 20 0 dave more").unwrap();
    assert_eq!(s.color, SeekColor::Black);
    assert_eq!(s.extra_time_move, Some(20));
    assert_eq!(s.extra_time_amount, None);
    assert_eq!(s.opponent.as_deref(), Some("dave"));
}

#[test]
fn seek_rejects_malformed_announcements() {
    for line in [
        "",
        "Seek new",
        "Seek new 42 bob 6 900 15 W 4 30 1 0 1 0",
        "Seek new x bob 6 900 15 W 4 30 1 0 1 0 0",
        "Seek new 42 bob six 900 15 W 4 30 1 0 1 0 0",
        "Seek new 42 bob 6 -900 15 W 4 30 1 0 1 0 0",
        "Seek new 42 bob 6 900 1.5 W 4 30 1 0 1 0 0",
        "Seek new 42 bob 6 900 15 X 4 30 1 0 1 0 0",
        "Seek new 42 bob 6 900 15 w 4 30 1 0 1 0 0",
        "Seek new 42 bob 6 900 15 W k 30 1 0 1 0 0",
        "Seek new 42 bob 6 900 15 W 4 f 1 0 1 0 0",
        "Seek new 42 bob 6 900 15 W 4 30 c 0 1 0 0",
        "Seek new 42 bob 6 900 15 W 4 30 1 2 1 0 0",
        "Seek new 42 bob 6 900 15 W 4 30 1 0 yes 0 0",
        "Seek new 42 bob 6 900 15 W 4 30 1 0 1 m 0",
        "Seek new 42 bob 6 900 15 W 4 30 1 0 1 0 a",
    ] {
        assert_eq!(Seek::from_str(line).err(), Some(RelayError::ParseError), "{:?}", line);
    }
}

#[test]
fn option_reads_an_advertisement() {
    let o = SpinOption::from_str("option name HalfKomi type spin default 0 min -10 max 10").unwrap();
    assert_eq!(o.name, "HalfKomi");
    assert_eq!(o.default, 0);
    assert_eq!(o.min, -10);
    assert_eq!(o.max, 10);

    let o = SpinOption::from_str("option max 7 name Threads default 2 type spin").unwrap();
    assert_eq!(o.name, "Threads");
    assert_eq!((o.default, o.min, o.max), (2, 0, 7));

    let o = SpinOption::from_str("").unwrap();
    assert_eq!(o.name, "");
    assert_eq!((o.default, o.min, o.max), (0, 0, 0));

    let o = SpinOption::from_str("name name name default").unwrap();
    assert_eq!(o.name, "default");

    let o = SpinOption::from_str("option name A name B min 1 min +2").unwrap();
    assert_eq!(o.name, "B");
    assert_eq!(o.min, 2);
}

#[test]
fn option_rejects_malformed_advertisements() {
    for line in [
        "option name",
        "option name X type",
        "option name X type check",
        "option name X type spin default",
        "option name X type spin default one",
        "option name X type spin default 1 min",
        "option name X type spin default 1 min 0.5",
        "option name X type spin default 1 min 0 max",
        "option name X type spin default 1 min 0 max 2147483648",
    ] {
        assert_eq!(SpinOption::from_str(line).err(), Some(RelayError::ParseError), "{:?}", line);
    }
}

#[test]
fn option_range_is_inclusive() {
    let o = option("Flatstones", 30, 10, 50);
    assert!(o.valid_value(10));
    assert!(o.valid_value(50));
    assert!(o.valid_value(30));
    assert!(!o.valid_value(9));
    assert!(!o.valid_value(51));
    assert!(!option("X", 0, 1, 0).valid_value(0));
}

#[test]
fn option_command() {
    let o = option("HalfKomi", 0, -10, 10);
    assert_eq!(o.to_tei_string(4), "setoption name HalfKomi value 4\n");
    assert_eq!(o.to_tei_string(-3), "setoption name HalfKomi value -3\n");
    assert_eq!(o.to_tei_string(0), "setoption name HalfKomi value 0\n");
    assert_eq!(o.to_tei_string(i32::MIN), "setoption name HalfKomi value -2147483648\n");
    assert_eq!(o.to_tei_string(i32::MAX), "setoption name HalfKomi value 2147483647\n");
    assert_eq!(o.to_tei_string(100), "setoption name HalfKomi value 100\n");
}

#[test]
fn negotiation_sets_what_differs_from_the_engine_default() {
    let options = vec![option("HalfKomi", 0, 0, 10)];
    assert_eq!(
        validate_and_set_option(&options, "HalfKomi", 4, 0),
        Ok(Some("setoption name HalfKomi value 4\n".to_string()))
    );
    assert_eq!(validate_and_set_option(&options, "HalfKomi", 0, 0), Ok(None));
    assert_eq!(validate_and_set_option(&options, "HalfKomi", 0, 4), Ok(None));
    assert_eq!(
        validate_and_set_option(&options, "HalfKomi", 4, 4),
        Ok(Some("setoption name HalfKomi value 4\n".to_string()))
    );
}

#[test]
fn negotiation_without_the_option_needs_the_assumed_value() {
    let options = vec![option("HalfKomi", 0, 0, 10)];
    assert_eq!(validate_and_set_option(&options, "Capstones", 1, 1), Ok(None));
    assert_eq!(
        validate_and_set_option(&options, "Capstones", 2, 1),
        Err(RelayError::OptionMismatch)
    );
    assert_eq!(validate_and_set_option(&[], "HalfKomi", 0, 0), Ok(None));
    assert_eq!(validate_and_set_option(&[], "HalfKomi", 1, 0), Err(RelayError::OptionMismatch));
    assert_eq!(
        validate_and_set_option(&options, "halfkomi", 4, 0),
        Err(RelayError::OptionMismatch)
    );
}

#[test]
fn negotiation_takes_the_first_option_of_the_name() {
    let options = vec![option("A", 1, 0, 9), option("B", 2, 0, 9), option("B", 3, 0, 9)];
    assert_eq!(validate_and_set_option(&options, "B", 2, 0), Ok(None));
    assert_eq!(
        validate_and_set_option(&options, "B", 3, 0),
        Ok(Some("setoption name B value 3\n".to_string()))
    );
}

#[test]
fn login_line() {
    let user = Login {
        guest_token: None,
        username: Some("alice".to_string()),
        password: Some("x".to_string()),
    };
    assert_eq!(user.to_login_string(), "Login alice x\n");
    let guest = Login { guest_token: None, username: None, password: None };
    assert_eq!(guest.to_login_string(), "Login Guest\n");
    let token = Login { guest_token: Some("abc".to_string()), username: None, password: None };
    assert_eq!(token.to_login_string(), "Login Guest abc\n");
    let half = Login {
        guest_token: Some("abc".to_string()),
        username: Some("alice".to_string()),
        password: None,
    };
    assert_eq!(half.to_login_string(), "Login Guest abc\n");
    let both = Login {
        guest_token: Some("abc".to_string()),
        username: Some("alice".to_string()),
        password: Some("x".to_string()),
    };
    assert_eq!(both.to_login_string(), "Login alice x\n");
}

#[test]
fn error_messages_differ() {
    let all = [
        RelayError::ProtocolViolation,
        RelayError::ParseError,
        RelayError::StreamClosed,
        RelayError::AuthFailure,
        RelayError::OptionMismatch,
    ];
    for (i, a) in all.iter().enumerate() {
        for (j, b) in all.iter().enumerate() {
            assert_eq!(a.message() == b.message(), i == j);
        }
    }
}

#[test]
fn seek_description() {
    let s = Seek::from_str("Seek new 42 bob 6 900 15 W 4 30 1 0 0 0 0").unwrap();
    assert_eq!(
        s.describe("2.0"),
        "  Seek 42: bob\n      size: 6, seeker color: white, time: 900+15, komi: 2.0"
    );
    let s = Seek::from_str("Seek new 7 carol 5 60 0 A 1 25 2 1 1 20 120 dave").unwrap();
    assert_eq!(
        s.describe("0.5"),
        "  Seek 7: carol\n      size: 5, seeker color: random, time: 60+0, komi: 0.5, flatstones: 25, capstones: 2, unrated, tournament, opponent: dave"
    );
    let mut own = seek(8);
    own.color = SeekColor::Black;
    own.capstones = Some(2);
    own.flatstones = Some(49);
    assert_eq!(
        own.describe(""),
        "  Seek: \n      size: 8, seeker color: black, time: 1200+20, komi: , flatstones: 49"
    );
}

#[test]
fn option_command_reads_back() {
    for value in [0, 1, -1, 42, -2147483648, 2147483647] {
        let line = option("HalfKomi", 0, -10, 10).to_tei_string(value);
        let words: Vec<&str> = line.split_ascii_whitespace().collect();
        assert_eq!(words.len(), 5);
        assert_eq!(&words[..4], &["setoption", "name", "HalfKomi", "value"]);
        let read = SpinOption::from_str(&format!("default {}", words[4])).unwrap();
        assert_eq!(read.default, value);
    }
}
