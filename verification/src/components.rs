//! The screens: each a state with the messages that change it.

pub mod app;
pub mod board;
pub mod user_list;
