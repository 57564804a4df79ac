[package]
name = "blackjack_core"
version = "0.1.0"
edition = "2021"
publish = false

[dependencies]
rand = "0.9"
rand_distr = "0.5"
clap = { version = "4", features = ["derive"] }
crossterm = "0.27"
ratatui = "0.26"
async-trait = "0.1"
