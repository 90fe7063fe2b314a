[package]
name = "protobuf_bind"
version = "0.1.0"
edition = "2021"
publish = false

[dependencies]
aster = { version = "0.41", default-features = false, features = ["with-syntex"] }
syntex_syntax = "0.58"
