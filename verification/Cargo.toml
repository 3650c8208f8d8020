[package]
name = "scrs-serve"
version = "0.1.0"
edition = "2021"
publish = false

[dependencies]
bus_queue = "0.5"
bytes = "0.5"
clap = { version = "3", features = ["derive"] }
env_logger = "0.8"
futures = "0.3"
http = "0.2"
httparse = "~1.3"
log = "0.4"
mime = "0.3"
serde = { version = "1", features = ["derive"] }
serde_json = "1"
thiserror = "1"
tokio = { version = "0.2", features = ["io-util", "macros", "rt-threaded", "sync", "tcp"] }
toml = "0.5"
url = "2"
ustr = "0.7"
