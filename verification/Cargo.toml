[package]
name = "mega_mailer"
version = "0.1.0"
edition = "2021"
publish = false

[dependencies]
aes = "0.8"
cbc = { version = "0.1", features = ["alloc", "block-padding"] }
chrono = "0.4"
rand = "0.8"
