[package]
name = "nu_keywords"
version = "0.1.0"
edition = "2021"
publish = false

[dependencies]
nu-path = "0.60.0"
nu-plugin = "0.60.0"
nu-protocol = "0.60.0"
serde_json = "1"
