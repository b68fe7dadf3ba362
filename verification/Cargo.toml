[package]
name = "ltr"
version = "0.1.0"
edition = "2021"
publish = false

[dependencies]
chrono = "0.4"
confy = "*"
crossterm = "0.25"
rusqlite = { version = "*", features = ["bundled"] }
rust-i18n = "*"
serde = { version = "1", features = ["derive"] }
tui = "0.19"
