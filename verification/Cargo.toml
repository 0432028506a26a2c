[package]
name = "pomodoro"
version = "0.1.0"
edition = "2021"
publish = false

[dependencies]
url = "2"
thiserror = "*"
serde = { version = "1", features = ["derive"] }
toml = "*"
rusqlite = { version = "*", features = ["bundled"] }
tempfile = "3"
gio = "*"
glib = "*"
