[package]
name = "daikin_matter"
version = "0.1.0"
edition = "2021"
publish = false

[dependencies]
hex = "0.4"
reqwest = { version = "0.12", default-features = false, features = ["json", "rustls-tls"] }
serde = { version = "1", features = ["derive"] }
serde_json = "1"
serde_repr = "0.1"
anyhow = "1"
async-lock = "3"
clap = { version = "4", features = ["derive", "env"] }
dirs = "5"
log = "0.4"
nix = { version = "0.29", features = ["net"] }
