[package]
name = "e2e_protocol"
version = "0.1.0"
edition = "2021"
publish = false

[dependencies]
bincode = "1"
z85 = "*"
rsa = "0.9"
rand = "0.8"
chorus = "*"
tokio = { version = "1", features = ["full"] }
inquire = "*"
async-trait = "0.1"
