[package]
name = "kleinhirn"
version = "0.1.0"
edition = "2021"
publish = false

[dependencies]
anyhow = "=1.0.104"
async-dup = "=1.2.4"
async-trait = "=0.1.92"
config = { version = "=0.15.27", default-features = false, features = ["toml"] }
futures = "=0.3.34"
http = "=0.2.12"
humantime-serde = "=1.1.1"
nix = { version = "=0.31.3", features = ["fs", "process", "signal"] }
parking_lot = "=0.13.0"
prctl = "=1.0.0"
serde = { version = "=1.0.229", features = ["derive"] }
serde_json = "=1.0.154"
signal-hook = "=0.4.5"
slog = { version = "=2.8.2", features = ["dynamic-keys"] }
slog-async = "=2.8.0"
slog-json = "=2.6.1"
slog-logfmt = "=0.1.0"
slog-scope = "=4.4.1"
smol = "=2.0.2"
structopt = "=0.3.26"
thiserror = "=2.0.21"
tokio = { version = "=1.54.1", features = ["rt", "rt-multi-thread", "net", "io-util", "time", "sync", "macros"] }
tophat = { version = "=0.3.0", features = ["router"] }
uuid = { version = "=1.29.0", features = ["v4"] }
