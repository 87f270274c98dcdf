[package]
name = "mailgen"
version = "0.1.0"
edition = "2021"
publish = false

[dependencies]
css-inline = { version = "=0.22.0", default-features = false }
html2text = "=0.17.1"
