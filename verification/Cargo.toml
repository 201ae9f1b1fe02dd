[package]
name = "synth_core"
version = "0.1.0"
edition = "2021"
publish = false

[dependencies]
rand = "*"
serde = { version = "*", features = ["derive"] }
serde_json = "*"
hound = "*"
tokio = { version = "*", features = ["net", "rt-multi-thread", "io-util", "macros"] }
