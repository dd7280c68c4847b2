[package]
name = "receipt_pipeline"
version = "0.1.0"
edition = "2021"
publish = false

[dependencies]
printers = "2.2.0"
