[package]
name = "chess_rules"
version = "0.1.0"
edition = "2021"
publish = false

[dependencies]
piston_window = "0.120.0"
glutin = "0.26.0"
