[package]
name = "hbb_common"
version = "0.1.0"
edition = "2021"
publish = false

[dependencies]
anyhow = "1"
argon2 = { version = "0.5", features = ["std"] }
confy = "*"
directories-next = "2"
dirs-next = "2"
futures = "0.3"
lazy_static = "1"
libc = "0.2"
rand = "0.8"
regex = "1"
serde = { version = "1", features = ["derive"] }
serde_derive = "1"
serde_json = "1"
sodiumoxide = "0.2"
tokio = { version = "1", features = ["fs", "rt", "macros"] }
