[package]
name = "spark_connect"
version = "0.1.0"
edition = "2021"
publish = false

[dependencies]
uuid = { version = "1", features = ["v4"] }
tonic = "0.12"
http = "1"
arrow = { version = "*", default-features = false, features = ["ipc", "prettyprint"] }
arrow-ipc = "*"
prost = "0.13"
thiserror = "1"
tokio = { version = "1", features = ["macros", "rt-multi-thread"] }
rustyline = "14"
