[package]
name = "pg_bridge"
version = "0.1.0"
edition = "2021"
publish = false

[dependencies]
clap = { version = "4", features = ["derive"] }
eyre = "*"
pgx-pg-config = "*"
tempfile = "*"
tracing = "*"
