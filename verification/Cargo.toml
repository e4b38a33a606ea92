[package]
name = "overtemp"
version = "0.1.0"
edition = "2021"
publish = false

[dependencies]
anyhow = "1"
chrono = { version = "0.4", default-features = false, features = ["clock"] }
futures = { version = "0.3", default-features = false, features = ["std", "async-await"] }
tokio = { version = "1", default-features = false, features = ["macros", "rt-multi-thread", "time"] }
