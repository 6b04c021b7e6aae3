[package]
name = "chess_gui"
version = "0.1.0"
edition = "2021"
publish = false

[dependencies]
ggez = "=0.7.1"
