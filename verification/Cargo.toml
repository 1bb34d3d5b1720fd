[package]
name = "qsh"
version = "0.1.0"
edition = "2021"
publish = false

[dependencies]
aes-gcm = "*"
kyberlib = "*"
fips204 = "*"
lz4_flex = "*"
rand_chacha = "0.3"
tokio = { version = "1", features = ["full"] }
serde = { version = "1", features = ["derive"] }
toml = "*"
bincode = "2"
clap = { version = "4", features = ["derive"] }
zeroize = "1"
