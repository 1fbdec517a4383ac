[package]
name = "host_alert"
version = "0.1.0"
edition = "2021"
publish = false

[dependencies]
sysinfo = "0.30"
urlencoding = "2"
reqwest = { version = "0.12", default-features = false }
tokio = { version = "1", features = ["macros", "rt-multi-thread", "time"] }
log = "0.4"
env_logger = "0.11"
dotenv = "0.15"
