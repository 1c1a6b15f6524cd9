[package]
name = "neuronek"
version = "0.1.0"
edition = "2021"
publish = false

[dependencies]
async-std = { version = "=1.13.2", features = ["attributes"] }
async-trait = "=0.1.92"
chrono = "=0.4.45"
clap = { version = "=4.6.7", features = ["derive"] }
fuzzydate = "=0.4.1"
lazy_static = "=1.5.1"
miette = { version = "=7.6.0", features = ["fancy"] }
platform-dirs = "=0.3.0"
sea-orm = { version = "=1.1.20", features = ["sqlx-sqlite", "runtime-async-std-rustls", "macros"] }
sea-orm-migration = { version = "=1.1.20", features = ["sqlx-sqlite", "runtime-async-std-rustls"] }
serde = { version = "=1.0.229", features = ["derive"] }
tabled = "=0.22.0"
tracing = "=0.1.44"
uom = "=0.36.0"

[dev-dependencies]
serde_json = "=1.0.154"
