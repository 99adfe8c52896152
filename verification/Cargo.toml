[package]
name = "scaffold"
version = "0.1.0"
edition = "2021"
publish = false

[dependencies]
toml = { version = "0.1", default-features = false }
git2 = { version = "*", default-features = false }
rustc-serialize = "0.3"
