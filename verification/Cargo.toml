[package]
name = "cute"
version = "0.1.0"
edition = "2021"
publish = false

[dependencies]
crossterm = "0.27"
dirs = "5"
ratatui = "0.23"
rusqlite = "0.29"
tui-input = "0.8"
