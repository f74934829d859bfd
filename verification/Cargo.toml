[package]
name = "bingus"
version = "0.1.0"
edition = "2021"
publish = false

[dependencies]
anyhow = "1"
chrono = "0.4"
crossbeam = "0.8"
futures = "0.3"
itertools = "0.10"
rand = "0.8"
serde = { version = "1", features = ["derive"] }
serde_json = "1"
serenity = { version = "0.10", features = ["collector"] }
structopt = "0.3"
tokio = { version = "1", features = ["full"] }
