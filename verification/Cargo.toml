[package]
name = "vk_compute"
version = "0.1.0"
edition = "2021"
publish = false

[dependencies]
anyhow = "1"
owo-colors = "*"
pretty_env_logger = "*"
serde = { version = "1", features = ["derive"] }
thiserror = "*"
toml = "*"
vulkanalia = { version = "*", features = ["libloading"] }
