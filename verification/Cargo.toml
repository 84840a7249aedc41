[package]
name = "beeps"
version = "0.1.0"
edition = "2021"
publish = false

[dependencies]
time = { version = "*", features = ["formatting"] }
axum = "*"
axum-auth = "*"
tokio = { version = "*", features = ["macros", "net", "rt-multi-thread"] }
serde = { version = "*", features = ["derive"] }
env_logger = "*"
