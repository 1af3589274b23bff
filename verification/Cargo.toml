[package]
name = "appstream"
version = "0.1.0"
edition = "2021"
publish = false

[dependencies]
license-exprs = "*"
psl = "*"
xpath_reader = "*"
sxd-document = "*"
serde = { version = "*", features = ["derive"] }
