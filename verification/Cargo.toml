[package]
name = "nix_installer"
version = "0.1.0"
edition = "2021"
publish = false

[dependencies]
nix-config-parser = "=0.2.0"
rand = "=0.8.8"
target-lexicon = "=0.12.16"
plist = "=1.10.3"
serde_json = { version = "=1.0.154", features = ["preserve_order"] }
tokio = { version = "=1.54.1", features = ["rt-multi-thread", "macros", "process", "fs", "io-util", "time", "signal", "sync"] }
nix = { version = "=0.26.4", features = ["user", "fs"] }
glob = "=0.3.4"
dirs = "=4.0.0"
clap = { version = "=4.6.7", features = ["derive", "env"] }
reqwest = { version = "=0.11.27", default-features = false, features = ["rustls-tls"] }
owo-colors = "=3.5.0"
