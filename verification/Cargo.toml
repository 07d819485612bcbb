[package]
name = "dependency_blame"
version = "0.1.0"
edition = "2021"

[dependencies]
regex = "1"
serde_json = "1"
toml = "0.8"
serde = { version = "1", features = ["derive"] }
clap = { version = "4", features = ["derive"] }
thiserror = "1"
chrono = { version = "0.4", features = ["serde"] }
git2 = { version = "0.19", default-features = false }
ignore = "0.4"
rayon = "1"
