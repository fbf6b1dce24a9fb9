[package]
name = "rc4_md5"
version = "0.1.0"
edition = "2021"
publish = false

[dependencies]
md-5 = "0.10"
rand = "0.8"

[dev-dependencies]
shadowsocks-crypto = { version = "0.5", features = ["v1-stream"] }
openssl = "0.10"
