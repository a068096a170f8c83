[package]
name = "polars_serde"
version = "0.1.0"
edition = "2021"
publish = false

[dependencies]
polars-core = { version = "=0.55.2", default-features = false, features = ["rows", "dtype-categorical", "dtype-array", "dtype-f16"] }
serde = { version = "=1.0.229", features = ["derive"] }
thiserror = "=2.0.21"
