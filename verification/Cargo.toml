[package]
name = "dxf2elmt"
version = "0.1.0"
edition = "2021"
publish = false

[dependencies]
anyhow = "*"
clap = { version = "*", features = ["derive"] }
dxf = "*"
hex_color = "*"
simple-xml-builder = "*"
tempfile = "*"
unicode-segmentation = "*"
uuid = { version = "*", features = ["v4"] }
wild = "*"
