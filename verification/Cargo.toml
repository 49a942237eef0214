[package]
name = "text_output"
version = "0.1.0"
edition = "2021"
publish = false

[dependencies]
arboard = { version = "3", default-features = false }
enigo = "*"
log = "0.4"
