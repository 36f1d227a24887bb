[package]
name = "ua4f"
version = "0.1.0"
edition = "2021"
publish = false

[dependencies]
atty = "0.2"
bytes = "1"
clap = { version = "4", features = ["derive"] }
memchr = "2"
moka = { version = "0.12", features = ["future", "sync"] }
num_cpus = "1"
once_cell = "1"
socks5-server = "0.10"
time = { version = "0.3", features = ["macros", "local-offset", "formatting"] }
tokio = { version = "1", features = ["full"] }
tracing = "0.1"
tracing-subscriber = { version = "0.3", features = ["env-filter", "local-time", "time"] }
