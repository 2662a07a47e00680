[package]
name = "tarball_fetcher"
version = "0.1.0"
edition = "2021"
publish = false

[dependencies]
bytes = "*"
clap = { version = "*", features = ["derive"] }
futures = "*"
reqwest = { version = "*", default-features = false }
serde = "*"
serde_derive = "*"
serde_json = "*"
tokio = { version = "*", features = ["rt-multi-thread", "macros", "fs", "time"] }
