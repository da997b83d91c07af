[package]
name = "quicktype_codegen"
version = "0.1.0"
edition = "2021"
publish = false

[dependencies]
json = "*"
schemars = "*"
serde_json = "*"
