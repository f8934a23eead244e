[package]
name = "kernelstats"
version = "0.1.0"
edition = "2021"
publish = false

[dependencies]
anyhow = "*"
clap = { version = "*", features = ["derive"] }
flate2 = "*"
log = "*"
pretty_env_logger = "*"
reqwest = { version = "*", default-features = false }
serde = { version = "*", features = ["derive"] }
serde_derive = "*"
serde_json = "*"
serde_yaml = "*"
tar = "*"
tokio = { version = "*", features = ["macros", "rt-multi-thread"] }
unicycle = "*"
