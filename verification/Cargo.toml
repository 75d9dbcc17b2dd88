[package]
name = "conn_server"
version = "0.1.0"
edition = "2021"
publish = false

[dependencies]
num_cpus = "=1.17.0"
tokio = { version = "=1.53.2", features = ["sync", "rt", "time", "net", "signal"] }
