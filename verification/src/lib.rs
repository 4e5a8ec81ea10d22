//! Move notation, session state and relay decisions for playing Tak on a
//! line-based game server with a TEI engine.

pub mod engine;
pub mod error;
pub mod game;
pub mod login;
pub mod number;
pub mod option;
pub mod playtak;
pub mod ptn;
pub mod relay;
pub mod seek;
pub mod session;
pub mod square;
pub mod text;
