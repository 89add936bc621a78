[package]
name = "deft_quick_js"
version = "0.1.0"
edition = "2021"
publish = false

[dependencies]
libquickjs-sys = "*"
anyhow = "1"
