//! Plain records shown by the screens that hold no board.

pub mod user;
