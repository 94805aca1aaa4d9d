[package]
name = "gelf_kafka_listener"
version = "1.0.0"
edition = "2021"
publish = false

[dependencies]
bytes = "1"
clap = "2"
daemonize = "0.5"
flate2 = "1"
rdkafka = "0.36"
serde_json = "1"
tokio = { version = "1", features = ["rt-multi-thread", "macros", "net", "io-util"] }
uuid = { version = "1", features = ["v4"] }
warp = { version = "0.3", default-features = false }
