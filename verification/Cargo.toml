[package]
name = "kilo_executor"
version = "0.1.0"
edition = "2021"
publish = false

[dependencies]
serde = { version = "1", features = ["derive"] }
serde_json = "1"
dirs = "*"
tokio = { version = "1", features = ["rt-multi-thread", "macros", "process", "io-util", "sync"] }
futures = "0.3"
axum = { version = "*", features = ["ws"] }
nix = { version = "*", features = ["fs"] }
uuid = { version = "1", features = ["serde"] }
anyhow = "1"
tracing = "0.1"
command-group = { version = "*", features = ["with-tokio"] }
json-patch = "*"
