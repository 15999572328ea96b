[package]
name = "portus_runtime"
version = "0.1.0"
edition = "2021"
publish = false

[dependencies]
ctrlc = "*"
nix = { version = "*", features = ["socket"] }
rusqlite = { version = "*", features = ["bundled"] }
serde = { version = "*", features = ["derive"] }
serde_json = "*"
