[package]
name = "guest_components"
version = "0.1.0"
edition = "2021"
publish = false

[dependencies]
anyhow = "1"
async-trait = "0.1"
base64 = "0.22"
clap = { version = "4", features = ["derive"] }
hyper = { version = "0.14", features = ["server", "tcp", "http1"] }
nix = { version = "*", features = ["mount", "fs"] }
serde = { version = "1", features = ["derive"] }
serde_json = "1"
sha2 = "*"
tempfile = "3"
thiserror = "*"
tokio = { version = "1", features = ["fs", "io-util", "macros", "net", "rt-multi-thread", "sync"] }
tracing = "0.1"
tracing-subscriber = { version = "0.3", features = ["env-filter"] }
ttrpc = { version = "*", features = ["async"] }
uuid = { version = "1", features = ["v4"] }
which = "*"
zeroize = "1"

[dev-dependencies]
hex = "0.4"
