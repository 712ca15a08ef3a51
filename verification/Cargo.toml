[package]
name = "randomnamecord"
version = "0.1.0"
edition = "2021"
publish = false

[dependencies]
regex = "=1.13.1"
rand = "=0.8.8"
itertools = "=0.10.5"
aho-corasick = "=0.7.20"
unicode-normalization = "=0.1.26"
behindthename = "=0.3.0"
poise = "=0.5.7"
tokio = { version = "=1.54.1", features = ["macros", "rt-multi-thread"] }
reqwest = "=0.11.27"
dotenv = "=0.15.0"
tracing-subscriber = "=0.3.23"
serde = { version = "=1.0.229", features = ["derive"] }
serde_json = "=1.0.154"
lazy_static = "=1.5.1"
