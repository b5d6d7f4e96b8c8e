[package]
name = "signal_source"
version = "0.1.0"
edition = "2021"
publish = false

[dependencies]
rand = "0.8"
serde = { version = "1", features = ["derive"] }
tokio = { version = "1", features = ["macros", "rt-multi-thread", "time", "signal"] }
reqwest = { version = "0.12", default-features = false, features = ["json"] }
mongodb = "3"
actix-web = { version = "4", default-features = false, features = ["macros"] }
futures = "0.3"
tracing = "0.1"
