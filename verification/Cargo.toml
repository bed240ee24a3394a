[package]
name = "ownspace"
version = "0.1.0"
edition = "2021"
publish = false

[dependencies]
aws-lc-rs = "1"
rusqlite = { version = "0.32", features = ["bundled"] }
rustix = { version = "1", features = ["fs", "process"] }
zeroize = "1"
gtk4 = "0.9"
libadwaita = "0.7"
