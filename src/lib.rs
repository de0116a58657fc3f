//! Decision core of a bot that plays chess on a game server: which
//! challenges it accepts, how it replays a game's history, where its moves
//! come from (opening book, search engine or a random legal move), how it
//! keeps track of pondering, and how it charges thinking time to the clock.
pub mod text;
pub mod policy;
pub mod board;
pub mod history;
pub mod book;
pub mod clock;
pub mod ponder;
pub mod session;
pub mod lichessbot;
