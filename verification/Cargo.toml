[package]
name = "codex_hooks_core"
version = "0.1.0"
edition = "2021"
publish = false

[dependencies]
sha1 = "0.10"
serde = { version = "1", features = ["derive"] }
serde_json = "1"
chrono = { version = "0.4", default-features = false, features = ["clock", "std"] }
tokio = { version = "1", features = ["process", "rt", "macros", "sync"] }
dirs = "*"
futures = "0.3"
anyhow = "1"
clap = { version = "4", features = ["derive"] }
tracing = "0.1"
