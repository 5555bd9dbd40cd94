[package]
name = "ot-gitlab-tools"
version = "0.1.0"
edition = "2021"
publish = false

[dependencies]
url = "=2.5.8"
urlencoding = "=2.1.3"
sha256 = "=1.6.0"
serde_json = "=1.0.154"
serde = { version = "=1.0.229", features = ["derive"] }
anyhow = "=1.0.104"
log = "=0.4.35"
env_logger = { version = "=0.11.11", default-features = false }
clap = { version = "=4.6.7", features = ["derive", "env"] }
clap-verbosity-flag = "=3.0.4"
chrono = { version = "=0.4.45", default-features = false, features = ["std", "serde"] }
reqwest = { version = "0.13", features = ["blocking", "json"] }
tokio = { version = "=1.54.1", features = ["macros", "rt-multi-thread"] }
futures = "=0.3.34"
secrecy = "=0.10.3"
directories = "=6.0.0"
rayon = "=1.12.0"
derive_builder = "=0.20.2"
gitlab = "=0.1905.0"
