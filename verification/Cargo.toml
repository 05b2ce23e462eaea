[package]
name = "rusqlite_helper"
version = "0.1.0"
edition = "2021"
publish = false

[dependencies]
rusqlite = "*"
serde = { version = "*", features = ["derive"] }
serde_rusqlite = "*"
thiserror = "*"
