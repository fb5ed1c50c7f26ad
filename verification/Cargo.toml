[package]
name = "net_monitor"
version = "0.1.0"
edition = "2021"
publish = false

[dependencies]
async-snmp = "*"
async-trait = "*"
chrono = "*"
clap = { version = "*", features = ["derive"] }
futures-util = "*"
ping-async = "*"
serde = { version = "*", features = ["derive"] }
serde_json = "*"
tokio = { version = "*", features = ["full"] }
toml = "*"
tracing = "*"
trippy-core = "*"
uuid = { version = "*", features = ["v4"] }
