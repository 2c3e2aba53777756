[package]
name = "sentiment_stream"
version = "0.1.0"
edition = "2021"
publish = false

[dependencies]
chrono = "0.4"
num_cpus = "1"
plotlib = "0.3"
rustc-serialize = "0.3"
sentiment = "0.1"
yaml-rust = "0.4"
