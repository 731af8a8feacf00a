[package]
name = "tempest"
version = "0.1.0"
edition = "2021"
publish = false

[dependencies]
chrono = "0.4"
bzip2 = "*"
flate2 = "1"
lru = "*"
tokio = { version = "1", features = ["rt-multi-thread", "macros", "time", "sync"] }
reqwest = "*"
bytes = "1"
image = { version = "*", default-features = false, features = ["png"] }
serde = { version = "1", features = ["derive"] }
toml = "*"
directories = "*"
clap = { version = "4", features = ["derive"] }
anyhow = "1"
thiserror = "*"
tracing = "0.1"
futures = "0.3"
async-stream = "0.3"
tokio-stream = "0.1"
log = "0.4"
env_logger = "*"
