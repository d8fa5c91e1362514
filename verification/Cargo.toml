[package]
name = "optionstratlib"
version = "0.1.0"
edition = "2021"
publish = false

[dependencies]
rust_decimal = "=1.43.0"
positive = { version = "=0.8.0", features = ["utoipa"] }
chrono = { version = "=0.4.45", features = ["serde"] }
num-traits = "=0.2.19"
serde = { version = "=1.0.229", features = ["derive"] }
serde_json = "=1.0.154"
lazy_static = "=1.5.1"
rust_decimal_macros = "=1.40.0"
tracing = "=0.1.44"
utoipa = { version = "=6.0.0", features = ["chrono", "decimal"] }
pretty-simple-display = "=0.1.1"
