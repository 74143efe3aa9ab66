[package]
name = "coopacrypt"
version = "2.1.0"
edition = "2021"
publish = false

[dependencies]
argon2 = "0.5"
chacha20poly1305 = "0.10"
getrandom = "0.3"
unicode-normalization = "0.1"
zeroize = "1"
anyhow = "1"
clap = { version = "4", features = ["derive"] }
rpassword = "7"
