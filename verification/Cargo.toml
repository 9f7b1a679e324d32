[package]
name = "auto_id"
version = "0.1.0"
edition = "2021"
publish = false

[dependencies]
parity-scale-codec = { version = "3", default-features = false, features = ["std"] }
x509-parser = { version = "0.16", features = ["verify"] }

[dev-dependencies]
pem = "3"
ring = "0.17"
