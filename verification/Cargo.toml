[package]
name = "account_watcher"
version = "0.1.0"
edition = "2021"
publish = false

[dependencies]
near-lake-framework = "*"
serde_json = "*"
tokio = { version = "*", default-features = false, features = ["macros", "rt-multi-thread", "sync"] }
