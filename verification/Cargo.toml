[package]
name = "toy_manifest"
version = "0.1.0"
edition = "2021"
publish = false

[dependencies]
axum = "*"
cargo-manifest = "*"
serde = { version = "1", features = ["derive"] }
serde_json = "1"
serde_yaml = "0.9"
shuttle-axum = "*"
shuttle-runtime = "*"
thiserror = "*"
tokio = { version = "1", features = ["macros", "rt-multi-thread"] }
toml = "0.8"
