[package]
name = "kitty_rc"
version = "0.1.0"
edition = "2021"
publish = false

[dependencies]
aes-gcm = "*"
base85 = "*"
clap = { version = "*", features = ["derive"] }
rand_core = { version = "*", features = ["getrandom"] }
serde_json = "*"
sha2 = "*"
tokio = { version = "*", features = ["rt", "rt-multi-thread", "net", "io-util", "time", "macros"] }
x25519-dalek = { version = "*", features = ["static_secrets"] }
