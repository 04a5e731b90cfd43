[package]
name = "airs-asr"
version = "0.1.0"
edition = "2021"
publish = false

[dependencies]
async-trait = "0.1"
futures = "0.3"
sherpa-onnx = "1.13"
thiserror = "2"
tokio = { version = "1", features = ["macros", "rt-multi-thread"] }
