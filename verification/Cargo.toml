[package]
name = "cargo_deploy"
version = "0.1.0"
edition = "2021"
publish = false

[dependencies]
clap = { version = "*", features = ["derive"] }
cargo_metadata = "*"

[dev-dependencies]
serde_json = "*"
