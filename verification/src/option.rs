//! Integer settings that an engine advertises, and the negotiation of the
//! values that a game needs.

use vstd::prelude::*;

use crate::error::RelayError;
use crate::number::{
    i32_of, lemma_i32_round_trip, lemma_signed_decimal_is_word, parse_i32, push_signed_decimal,
    signed_decimal,
};
use crate::text::{
    chars_of, is_text, is_word, lemma_words_of_line, line_of, line_string, push_word, split_words,
    string_of, word_views, words,
};

verus! {

/// An integer setting that the engine advertises.
#[derive(Clone, Debug)]
pub struct SpinOption {
    pub name: String,
    pub default: i32,
    /// The smallest value that the engine accepts.
    pub min: i32,
    /// The largest value that the engine accepts.
    pub max: i32,
}

/// An advertised setting as a mathematical value.
pub struct SpinOptionView {
    pub name: Seq<char>,
    pub default: i32,
    pub min: i32,
    pub max: i32,
}

impl View for SpinOption {
    type V = SpinOptionView;

    open spec fn view(&self) -> SpinOptionView {
        SpinOptionView { name: self.name@, default: self.default, min: self.min, max: self.max }
    }
}

/// The views of a list of advertised settings.
pub open spec fn option_views(options: Seq<SpinOption>) -> Seq<SpinOptionView> {
    options.map_values(|o: SpinOption| o@)
}

/// Whether `w` is one of the words of an advertisement that a value
/// follows.
pub open spec fn is_key(w: Seq<char>) -> bool {
    w == "name"@ || w == "type"@ || w == "default"@ || w == "min"@ || w == "max"@
}

/// The setting that the words `p` of an advertisement describe, read from
/// left to right into `acc`. The word after `name` is the name; the word
/// after `type` must be `spin`; the words after `default`, `min` and `max`
/// must be integers. Other words are passed over.
pub open spec fn option_fields(p: Seq<Seq<char>>, acc: SpinOptionView) -> Option<SpinOptionView>
    decreases p.len(),
{
    if p.len() == 0 {
        Some(acc)
    } else if !is_key(p[0]) {
        option_fields(p.drop_first(), acc)
    } else if p.len() < 2 {
        None
    } else if p[0] == "name"@ {
        option_fields(p.skip(2), SpinOptionView { name: p[1], ..acc })
    } else if p[0] == "type"@ {
        if p[1] == "spin"@ {
            option_fields(p.skip(2), acc)
        } else {
            None
        }
    } else {
        match i32_of(p[1]) {
            None => None,
            Some(v) => if p[0] == "default"@ {
                option_fields(p.skip(2), SpinOptionView { default: v, ..acc })
            } else if p[0] == "min"@ {
                option_fields(p.skip(2), SpinOptionView { min: v, ..acc })
            } else {
                option_fields(p.skip(2), SpinOptionView { max: v, ..acc })
            },
        }
    }
}

/// The setting that the words of an advertisement describe. What the line
/// does not give is empty or zero.
pub open spec fn option_of_words(p: Seq<Seq<char>>) -> Option<SpinOptionView> {
    option_fields(p, SpinOptionView { name: Seq::empty(), default: 0, min: 0, max: 0 })
}

/// The words of the command that sets the setting `name` to `value`.
pub open spec fn set_option_words(name: Seq<char>, value: i32) -> Seq<Seq<char>> {
    seq!["setoption"@, "name"@, name, "value"@, signed_decimal(value as int)]
}

/// The first of `options` that has the name `name`.
pub open spec fn find_option(options: Seq<SpinOptionView>, name: Seq<char>) -> Option<
    SpinOptionView,
>
    decreases options.len(),
{
    if options.len() == 0 {
        None
    } else if options[0].name == name {
        Some(options[0])
    } else {
        find_option(options.drop_first(), name)
    }
}

/// What has to be sent to the engine so that the setting `name` has the
/// value `value`. Where the engine advertises the setting, a command if
/// the value differs from the engine's default, and nothing otherwise.
/// Where it does not, nothing if the value is the one that such an engine
/// is assumed to use, and else a mismatch: the engine cannot play this game.
pub open spec fn negotiated(
    options: Seq<SpinOptionView>,
    name: Seq<char>,
    value: i32,
    assumed: i32,
) -> Result<Option<Seq<char>>, RelayError> {
    match find_option(options, name) {
        Some(o) => if value != o.default {
            Ok(Some(line_of(set_option_words(o.name, value))))
        } else {
            Ok(None)
        },
        None => if value == assumed {
            Ok(None)
        } else {
            Err(RelayError::OptionMismatch)
        },
    }
}

/// The characters of a command that may be absent, or the error in its
/// place.
pub open spec fn command_view(r: Result<Option<String>, RelayError>) -> Result<
    Option<Seq<char>>,
    RelayError,
> {
    match r {
        Ok(Some(s)) => Ok(Some(s@)),
        Ok(None) => Ok(None),
        Err(e) => Err(e),
    }
}

impl SpinOption {
    /// Reads a setting from a line by which the engine advertises one.
    pub fn from_str(s: &str) -> (r: Result<SpinOption, RelayError>)
        ensures
            match option_of_words(words(s@)) {
                Some(o) => r is Ok && r->Ok_0@ == o,
                None => r == Err::<SpinOption, RelayError>(RelayError::ParseError),
            },
    {
        let chars = chars_of(s);
        let parts = split_words(&chars);
        SpinOption::from_words(&parts)
    }

    /// Reads a setting from the words of an advertisement.
    pub fn from_words(parts: &Vec<Vec<char>>) -> (r: Result<SpinOption, RelayError>)
        ensures
            match option_of_words(word_views(parts@)) {
                Some(o) => r is Ok && r->Ok_0@ == o,
                None => r == Err::<SpinOption, RelayError>(RelayError::ParseError),
            },
    {
        let ghost p = word_views(parts@);
        let mut name: Vec<char> = Vec::new();
        let mut default: i32 = 0;
        let mut min: i32 = 0;
        let mut max: i32 = 0;
        let mut i: usize = 0;
        proof {
            assert(p.skip(0) =~= p);
        }
        while i < parts.len()
            invariant
                i <= parts.len(),
                p == word_views(parts@),
                option_of_words(p) == option_fields(
                    p.skip(i as int),
                    SpinOptionView { name: name@, default, min, max },
                ),
            decreases parts.len() - i,
        {
            let ghost rest = p.skip(i as int);
            let key = &parts[i];
            proof {
                assert(rest.drop_first() =~= p.skip(i + 1));
            }
            let is_name = is_text(key, "name");
            let is_type = is_text(key, "type");
            let is_default = is_text(key, "default");
            let is_min = is_text(key, "min");
            let is_max = is_text(key, "max");
            if !(is_name || is_type || is_default || is_min || is_max) {
                i += 1;
                continue ;
            }
            if parts.len() - i < 2 {
                return Err(RelayError::ParseError);
            }
            let value = &parts[i + 1];
            proof {
                assert(rest.skip(2) =~= p.skip(i + 2));
            }
            if is_name {
                name = value.clone();
            } else if is_type {
                if !is_text(value, "spin") {
                    return Err(RelayError::ParseError);
                }
            } else {
                let v = match parse_i32(value) {
                    Some(v) => v,
                    None => {
                        return Err(RelayError::ParseError);
                    },
                };
                if is_default {
                    default = v;
                } else if is_min {
                    min = v;
                } else {
                    max = v;
                }
            }
            i += 2;
        }
        Ok(SpinOption { name: string_of(&name), default, min, max })
    }

    /// Whether the engine accepts `value` for this setting.
    pub fn valid_value(&self, value: i32) -> (b: bool)
        ensures
            b == (self.min <= value <= self.max),
    {
        self.min <= value && value <= self.max
    }

    /// The command that sets this setting to `value`.
    pub fn to_tei_string(&self, value: i32) -> (s: String)
        ensures
            s@ == line_of(set_option_words(self.name@, value)),
    {
        let mut ws: Vec<Vec<char>> = Vec::new();
        push_word(&mut ws, chars_of("setoption"));
        push_word(&mut ws, chars_of("name"));
        push_word(&mut ws, chars_of(self.name.as_str()));
        push_word(&mut ws, chars_of("value"));
        let mut number: Vec<char> = Vec::new();
        push_signed_decimal(&mut number, value);
        push_word(&mut ws, number);
        proof {
            assert(word_views(ws@) =~= set_option_words(self.name@, value));
        }
        line_string(&ws)
    }
}

/// Decides what to send to the engine so that its setting `name` has the
/// value `value`, given the settings that the engine advertises and the
/// value `default` that an engine without the setting is assumed to use.
pub fn validate_and_set_option(
    options: &[SpinOption],
    name: &str,
    value: i32,
    default: i32,
) -> (r: Result<Option<String>, RelayError>)
    ensures
        command_view(r) == negotiated(option_views(options@), name@, value, default),
{
    let wanted = chars_of(name);
    let ghost views = option_views(options@);
    let mut i: usize = 0;
    proof {
        assert(views.skip(0) =~= views);
    }
    while i < options.len()
        invariant
            i <= options.len(),
            views == option_views(options@),
            wanted@ == name@,
            find_option(views, name@) == find_option(views.skip(i as int), name@),
        decreases options.len() - i,
    {
        let option = &options[i];
        proof {
            assert(views.skip(i as int).drop_first() =~= views.skip(i + 1));
        }
        if is_text(&wanted, option.name.as_str()) {
            if value != option.default {
                return Ok(Some(option.to_tei_string(value)));
            } else {
                return Ok(None);
            }
        }
        i += 1;
    }
    if value == default {
        Ok(None)
    } else {
        Err(RelayError::OptionMismatch)
    }
}

/// The command that sets a setting whose name is a word splits into its
/// five words again, and the last of them reads back as the value.
pub proof fn lemma_set_option_reads_back(name: Seq<char>, value: i32)
    requires
        is_word(name),
    ensures
        words(line_of(set_option_words(name, value))) == set_option_words(name, value),
        i32_of(set_option_words(name, value)[4]) == Some(value),
{
    reveal_strlit("setoption");
    reveal_strlit("name");
    reveal_strlit("value");
    lemma_signed_decimal_is_word(value as int);
    lemma_i32_round_trip(value);
    lemma_words_of_line(set_option_words(name, value));
}

} // verus!
