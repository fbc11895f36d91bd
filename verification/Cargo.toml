[package]
name = "vibe_git"
version = "0.1.0"
edition = "2021"
publish = false

[dependencies]
git2 = { version = "*", default-features = false }
uuid = { version = "*", features = ["v4"] }
regex = "*"
chrono = "*"
serde = { version = "*", features = ["derive"] }
serde_json = "*"
thiserror = "*"
tokio = { version = "*", features = ["rt", "rt-multi-thread", "fs", "process", "sync"] }
tracing = "*"
which = "*"
dunce = "*"
