[package]
name = "cargo_verbump"
version = "0.1.0"
edition = "2021"
publish = false

[dependencies]
anyhow = "1"
clap = { version = "4", features = ["derive"] }
semver = "1"
toml_edit = "0.22"

[dev-dependencies]
tempfile = "3"
