[package]
name = "llm_engine"
version = "0.1.0"
edition = "2021"
publish = false

[dependencies]
chrono = "*"
llama-cpp-2 = "*"
serde = { version = "*", features = ["derive"] }
serde_json = "*"
thiserror = "*"

[dev-dependencies]
encoding_rs = "*"
