[package]
name = "parse_bridge"
version = "0.1.0"
edition = "2021"
publish = false

[dependencies]
anyhow = "=1.0.104"
serde_json = "=1.0.151"
swc = "=80.0.0"
swc_common = "=26.0.0"
swc_ecma_ast = { version = "=29.0.2", features = ["serde-impl"] }
swc_ecma_parser = "=46.0.0"
swc_error_reporters = "=28.0.0"
