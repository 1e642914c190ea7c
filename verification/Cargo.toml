[package]
name = "sckit_recorder"
version = "0.1.0"
edition = "2021"
publish = false

[dependencies]
anyhow = "*"
cidre = "*"
futures = "*"
tokio = { version = "*", features = ["macros", "rt-multi-thread"] }
