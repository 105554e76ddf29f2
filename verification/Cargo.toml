[package]
name = "wavrec"
version = "0.1.0"
edition = "2021"
publish = false

[dependencies]
clap = { version = "4", features = ["derive"] }
ctrlc = "3"
env_logger = "0.11"
log = "0.4"
uuid = { version = "1", features = ["v4"] }
wasapi = "0.15"
