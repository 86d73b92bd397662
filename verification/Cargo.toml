[package]
name = "soap"
version = "0.1.0"
edition = "2021"
publish = false

[dependencies]
xmltree = { version = "0.10", features = ["attribute-order"] }
xml-rs = "0.8"
