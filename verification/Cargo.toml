[package]
name = "keysounds"
version = "0.1.0"
edition = "2021"
publish = false

[dependencies]
rand = "0.8"
glob = "*"
log = "*"
stderrlog = "*"
serde = { version = "*", features = ["derive"] }
serde_json = "*"
rdev = "*"
rodio = "*"
