[package]
name = "polars_candle"
version = "0.1.0"
edition = "2021"
publish = false

[dependencies]
candle-core = "=0.4.1"
glowrs = "=0.4.1"
# candle-core 0.4.1 uses the rand 0.8 impls of half, which half dropped after 2.4
half = "=2.4.1"
pyo3 = { version = "=0.21.2", features = ["extension-module", "abi3-py38"] }
serde = { version = "=1.0.229", features = ["derive"] }

[dev-dependencies]
tokenizers = "=0.19.1"
