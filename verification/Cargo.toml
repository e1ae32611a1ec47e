[package]
name = "goto"
version = "0.1.0"
edition = "2021"
publish = false

[dependencies]
blake3 = "*"
url = "*"
serde_yaml = "0.8"
actix-web = "*"
actix-files = "*"
futures = "*"
structopt = "*"
