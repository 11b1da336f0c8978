[package]
name = "vapour"
version = "0.1.0"
edition = "2021"
publish = false

[dependencies]
chrono = "=0.4.45"
serde_json = "=1.0.154"
reqwest = { version = "=0.12.28", features = ["json"] }
tokio = { version = "=1.54.1", features = ["macros", "rt-multi-thread", "time"] }
tokio-util = "=0.7.20"
dotenv = "=0.15.0"
appwrite = "=0.15.0"
slint = { version = "=1.17.1", default-features = false, features = ["std", "compat-1-2"] }
gif = "0.13"
