[package]
name = "memospot"
version = "0.1.0"
edition = "2021"
publish = false

[dependencies]
anyhow = "=1.0.104"
chrono = { version = "0.4", default-features = false, features = ["clock"] }
encoding_rs = "=0.8.42"
figment = { version = "=0.10.19", features = ["yaml", "env", "json"] }
home = "=0.5.12"
humantime = "=2.4.0"
log = "=0.4.34"
nix = { version = "=0.31.3", features = ["user", "signal"] }
os_pipe = "=1.2.3"
path-clean = "=1.0.1"
rand = "=0.9.5"
reqwest = { version = "0.12", default-features = false }
sea-orm = { version = "1", default-features = false, features = ["sqlx-sqlite", "runtime-tokio"] }
serde = { version = "=1.0.229", features = ["derive"] }
serde_json = "=1.0.154"
serde_yaml = "=0.9.34"
shared_child = "=1.1.2"
sysinfo = "=0.39.6"
tokio = { version = "=1.54.1", features = ["rt-multi-thread", "time", "fs", "io-util", "sync", "macros"] }
uuid = { version = "=1.29.0", features = ["v4"] }

[dev-dependencies]
tempfile = "=3.27.0"
