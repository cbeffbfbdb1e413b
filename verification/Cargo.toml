[package]
name = "kanban_board"
version = "0.1.0"
edition = "2021"
publish = false

[dependencies]
log = "0.4"
serde = "1"
serde_derive = "1"
stdweb = "0.4"
yew = "0.6"
