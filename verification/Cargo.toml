[package]
name = "git_gui"
version = "0.1.0"
edition = "2021"
publish = false

[dependencies]
git2 = { version = "0.19", default-features = false }
serde = { version = "1", features = ["derive"] }
serde_json = "1"
dirs = "5"

[dev-dependencies]
tempfile = "3"
