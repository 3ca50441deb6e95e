[package]
name = "materialx_parser"
version = "0.1.0"
edition = "2021"
publish = false

[dependencies]
indexmap = "2"
roxmltree = "*"
thiserror = "1"
