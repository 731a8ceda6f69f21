[package]
name = "solve"
version = "0.1.0"
edition = "2021"
publish = false

[dependencies]
chrono = "*"
rand = "*"
md-5 = "*"
sha3 = "*"
serde_json = "*"
lru = "*"
serde = { version = "*", features = ["derive"] }
nix = { version = "*", features = ["signal", "process"] }
rusqlite = { version = "*", features = ["bundled"] }
