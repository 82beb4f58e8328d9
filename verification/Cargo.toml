[package]
name = "canary_sdk"
version = "0.1.0"
edition = "2021"
publish = false

[dependencies]
anyhow = "1"
bcs = "0.1.6"
dotenv = "0.15"
move-core-types = "0.0.3"
serde = { version = "1", features = ["derive"] }
sui-sdk = "0.0.0"
thiserror = "1"
tokio = { version = "1", features = ["macros", "rt-multi-thread", "time"] }
