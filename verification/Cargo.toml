[package]
name = "rustcube"
version = "0.1.0"
edition = "2021"
publish = false

[dependencies]
libaes = "*"
pbkdf2 = "0.12"
sha2 = "0.10"
rand = "0.8"
zeroize = "*"
clap = { version = "4", features = ["derive"] }
tar = "*"
rpassword = "*"
