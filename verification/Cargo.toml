[package]
name = "tcp_client"
version = "0.1.0"
edition = "2021"
publish = false

[dependencies]
variable-len-reader = "*"
bytes = "*"
tokio = { version = "*", features = ["net", "time", "sync", "io-util", "rt", "macros"] }
thiserror = "*"
async-trait = "*"
once_cell = "*"
lazy_static = "*"
serde = { version = "*", features = ["derive"] }
