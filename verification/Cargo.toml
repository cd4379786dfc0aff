[package]
name = "appleappscli"
version = "0.5.0"
edition = "2021"
publish = false

[dependencies]
anyhow = "1"
clap = { version = "4", features = ["derive"] }
pulldown-cmark = { version = "*", default-features = false, features = ["html"] }
rusqlite = { version = "*", features = ["bundled"] }
