[package]
name = "vban_autogain"
version = "0.1.0"
edition = "2021"
publish = false

[dependencies]
shell-words = "*"
clap = "*"
tokio = { version = "*", features = ["net", "io-std", "io-util", "rt", "rt-multi-thread", "sync", "macros"] }

[dev-dependencies]
byteorder = "*"
