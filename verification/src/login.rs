//! The line that logs in to the server.

use vstd::prelude::*;

use crate::text::{chars_of, line_of, line_string, push_word, text_view, word_views};

verus! {

/// The credentials with which to log in to the server: a user name with
/// its password, or else a guest, with or without a token.
#[derive(Clone, Debug)]
pub struct Login {
    pub guest_token: Option<String>,
    pub username: Option<String>,
    pub password: Option<String>,
}

/// The words of the line that logs in: the name and the password where both
/// are given, and else a guest with the token if there is one.
pub open spec fn login_words(
    guest_token: Option<Seq<char>>,
    username: Option<Seq<char>>,
    password: Option<Seq<char>>,
) -> Seq<Seq<char>> {
    match (username, password) {
        (Some(name), Some(secret)) => seq!["Login"@, name, secret],
        _ => match guest_token {
            Some(token) => seq!["Login"@, "Guest"@, token],
            None => seq!["Login"@, "Guest"@],
        },
    }
}

impl Login {
    /// Writes the line that logs in to the server.
    pub fn to_login_string(&self) -> (s: String)
        ensures
            s@ == line_of(
                login_words(
                    text_view(self.guest_token),
                    text_view(self.username),
                    text_view(self.password),
                ),
            ),
    {
        let mut ws: Vec<Vec<char>> = Vec::new();
        push_word(&mut ws, chars_of("Login"));
        match (&self.username, &self.password) {
            (Some(name), Some(secret)) => {
                push_word(&mut ws, chars_of(name.as_str()));
                push_word(&mut ws, chars_of(secret.as_str()));
                proof {
                    assert(word_views(ws@) =~= seq!["Login"@, name@, secret@]);
                }
            },
            _ => {
                push_word(&mut ws, chars_of("Guest"));
                match &self.guest_token {
                    Some(token) => {
                        push_word(&mut ws, chars_of(token.as_str()));
                        proof {
                            assert(word_views(ws@) =~= seq!["Login"@, "Guest"@, token@]);
                        }
                    },
                    None => {
                        proof {
                            assert(word_views(ws@) =~= seq!["Login"@, "Guest"@]);
                        }
                    },
                }
            },
        }
        line_string(&ws)
    }
}

} // verus!
