[package]
name = "static_json_pointer"
version = "0.1.0"
edition = "2021"
publish = false

[dependencies]
lazy_static = "1"
proc-macro2 = "1"
serde_json = "1"
