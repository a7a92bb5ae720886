[package]
name = "process_scheduler"
version = "0.1.0"
edition = "2021"
publish = false

[dependencies]
regex = "1"
errno = "*"
toml = "*"
libc = "0.2"
procfs = "*"
users = "*"
indexmap = { version = "*", features = ["serde"] }
serde = "1"
serde_derive = "1"
