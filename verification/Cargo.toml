[package]
name = "artplace"
version = "0.1.0"
edition = "2021"
publish = false

[dependencies]
uuid = { version = "=1.29.0", features = ["v4"] }
rand = "=0.8.8"
actix = "=0.13.5"
actix-web = { version = "=4.18.1", default-features = false, features = ["macros", "ws"] }
actix-web-actors = "=4.3.1"
actix-files = "=0.6.10"
prost = "=0.12.6"
serde = { version = "=1.0.229", features = ["derive"] }
env_logger = "=0.10.2"
log = "=0.4.34"
