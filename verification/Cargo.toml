[package]
name = "awesome_clicker"
version = "0.1.0"
edition = "2021"
publish = false

[dependencies]
rand = "0.8"
serde = { version = "1", features = ["derive"] }
serde_json = "1"
dirs = "5"
enigo = "0.2"
rdev = "0.5"
