[package]
name = "mc_sync"
version = "0.1.0"
edition = "2021"
publish = false

[dependencies]
anyhow = "1"
joinery = "2"
regex = "1"
serenity = "0.10"
structopt = "0.3"
tokio = { version = "1", features = ["io-std", "io-util", "macros", "process", "rt", "sync"] }
