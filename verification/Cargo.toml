[package]
name = "nginx_spcgen"
version = "0.1.0"
edition = "2021"
publish = false

[dependencies]
toml = "0.8"
anyhow = "1"
clap = { version = "4", features = ["derive"] }
colored = "2"
log = "0.4"
log4rs = "1"
