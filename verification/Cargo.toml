[package]
name = "animus"
version = "0.1.0"
edition = "2021"
publish = false

[dependencies]
zeroize = "1"
serde = { version = "1", features = ["derive"] }
serde_json = "1"
nix = { version = "0.29", features = ["signal"] }
sd-notify = "0.4"
