[package]
name = "catmodoro"
version = "0.1.0"
edition = "2021"
publish = false

[dependencies]
clap = "3"
crossterm = "0.25"
tui = "0.19"
