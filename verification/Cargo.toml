[package]
name = "bootcfg"
version = "0.1.0"
edition = "2021"
publish = false

[dependencies]
ethers = { version = "=2.0.14", default-features = false, features = ["ws", "rustls"] }
ecdsa = "=0.16.9"
elliptic-curve = "=0.13.8"
dotenv = "=0.15.0"
tokio = { version = "=1.53.2", features = ["rt-multi-thread"] }
