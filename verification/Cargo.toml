[package]
name = "nserve"
version = "0.1.0"
edition = "2021"
publish = false

[dependencies]
anyhow = "1"
bytes = "1"
chrono = "0.4"
clap = { version = "4", features = ["derive"] }
crossterm = "*"
futures-util = "0.3"
http-body-util = "0.1"
hyper = { version = "1", features = ["client", "http1", "server"] }
hyper-util = { version = "0.1", features = ["client", "client-legacy", "http1", "tokio"] }
ngrok = "*"
nix = { version = "*", features = ["process", "ptrace", "signal"] }
open = "5"
serde = { version = "1", features = ["derive"] }
serde_json = "1"
serde_yaml_ng = "*"
tokio = { version = "1", features = ["io-std", "io-util", "macros", "net", "rt-multi-thread", "signal", "sync"] }
url = "2"
