[package]
name = "xsd_parser"
version = "0.1.0"
edition = "2021"
publish = false

[dependencies]
Inflector = "0.11"
roxmltree = "0.14"
anyhow = "1"
clap = { version = "4", features = ["derive"] }
