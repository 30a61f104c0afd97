[package]
name = "diflouroborane"
version = "0.1.0"
edition = "2021"
publish = false

[dependencies]
async-std = "1"
capnp = "*"
capnp-rpc = "*"
casbin = { version = "2", default-features = false, features = ["runtime-async-std"] }
clap = "2"
futures = "0.3"
serde = { version = "1", features = ["derive"] }
signal-hook = "0.3"
slog = "2"
slog-async = "2"
slog-term = "2"
toml = "0.5"
uuid = { version = "1", features = ["serde"] }
