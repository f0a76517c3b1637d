[package]
name = "sampler"
version = "0.1.0"
edition = "2021"
publish = false

[dependencies]
anyhow = "*"
axum = "*"
aya = "*"
aya-log = "*"
byte-unit = "*"
chrono = "*"
clap = { version = "*", features = ["derive"] }
env_logger = "*"
humantime = "*"
libc = "*"
log = "*"
rand = "*"
reqwest = { version = "*", default-features = false }
serde = { version = "*", features = ["derive"] }
tokio = { version = "*", features = ["full"] }
toml = "*"
tower-http = { version = "*", features = ["cors", "fs"] }
