[package]
name = "texconv"
version = "0.1.0"
edition = "2021"
publish = false

[dependencies]
squish = "1"
image = { version = "0.24", default-features = false, features = ["png"] }
tokio = { version = "1", features = ["fs", "io-util", "rt-multi-thread", "macros"] }
futures = "0.3"
clap = "2"
