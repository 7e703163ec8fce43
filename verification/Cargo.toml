[package]
name = "backend_rs"
version = "0.1.0"
edition = "2021"
publish = false

[dependencies]
axum = "*"
env_logger = "*"
reqwest = { version = "*", default-features = false }
serde = { version = "*", features = ["derive"] }
tokio = { version = "*", features = ["macros", "rt-multi-thread", "time"] }
tower = "*"
tower-http = { version = "*", features = ["compression-gzip"] }
