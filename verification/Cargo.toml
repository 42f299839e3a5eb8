[package]
name = "hb"
version = "0.1.0"
edition = "2021"
publish = false

[dependencies]
actix = "0.10"
actix-codec = "0.3"
actix-web = "3"
awc = "2"
bytes = "0.5"
futures = "0.3"
serde_json = "1"
reqwest = "0.10"
tokio = { version = "0.2", features = ["rt-threaded", "rt-core"] }
allo-isolate = "0.1"
ffi_helpers = "0.2"
lazy_static = "1"
atomic = "0.5"
