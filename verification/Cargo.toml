[package]
name = "circuit_gen"
version = "0.1.0"
edition = "2021"
publish = false

[dependencies]
pasta_curves = "0.5"
serde = { version = "1", features = ["derive"] }
serde_json = "1"
clap = { version = "4", features = ["derive"] }
minijinja = { version = "1", features = ["loader"] }
env_logger = "0.10"
log = "0.4"
