[package]
name = "cedar_corpus"
version = "0.1.0"
edition = "2021"
publish = false

[dependencies]
cedar-policy-core = "=4.14.0"
serde_json = "=1.0.154"
magnus = "=0.8.4"
serde_magnus = "=0.11.0"
