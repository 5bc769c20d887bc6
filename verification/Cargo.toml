[package]
name = "kaantor"
version = "0.1.0"
edition = "2021"
publish = false

[dependencies]
actix = "0.13"
futures = "0.3"
log = "0.4"
ptree = { version = "*", default-features = false }
