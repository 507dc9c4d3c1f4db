[package]
name = "location_matcher"
version = "0.1.0"
edition = "2021"
publish = false

[dependencies]
globset = "0.4"
hyper = { version = "0.14", default-features = false }
regex = "1"
