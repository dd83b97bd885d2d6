[package]
name = "uplink"
version = "0.1.0"
edition = "2021"
publish = false

[dependencies]
anyhow = "1"
async-trait = "0.1"
bytes = "1"
flume = "0.10"
futures-delay-queue = "*"
log = "0.4"
rumqttc = { version = "0.17", default-features = false }
serde = { version = "1", features = ["derive"] }
serde_json = "1"
simplelog = "0.12"
structopt = "0.3"
thiserror = "1"
time = "0.3"
tokio = { version = "1", features = ["rt", "rt-multi-thread", "macros", "net", "io-util", "time", "sync"] }
tokio-stream = "0.1"
tokio-util = { version = "0.7", features = ["codec"] }
