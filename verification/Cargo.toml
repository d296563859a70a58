[package]
name = "rdaio"
version = "0.1.0"
edition = "2021"
publish = false

[dependencies]
crossterm = "0.27"
rand = "0.8"
ratatui = "0.26"
rodio = { version = "0.17", default-features = false }
symphonia = { version = "0.5", default-features = false, features = ["mp3"] }
