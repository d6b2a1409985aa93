[package]
name = "shadow_protocol"
version = "0.1.0"
edition = "2021"
publish = false

[dependencies]
anchor-lang = "=0.31.2"
anchor-spl = { version = "=0.31.2", default-features = false, features = ["token", "associated_token"] }
arcis-imports = "=0.2.0"
getrandom = { version = "=0.2.17", features = ["custom"] }
