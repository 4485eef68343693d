[package]
name = "craft"
version = "0.1.0"
edition = "2021"
publish = false

[dependencies]
semver = "1"
nodejs-semver = "*"
chrono = "0.4"
clap = { version = "4", features = ["derive"] }
serde = { version = "1", features = ["derive"] }
serde_json = "1"
serde_yaml = "0.9"
homedir = "*"
tokio = { version = "1", features = ["rt-multi-thread", "macros", "fs", "io-util"] }
reqwest = { version = "0.12", default-features = false, features = ["rustls-tls"] }
flate2 = "1"
tar = "0.4"
indicatif = "*"
console = "*"
log = "0.4"
env_logger = "*"
fs_extra = "1"
thiserror = "*"
