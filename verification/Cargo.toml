[package]
name = "syntax_error"
version = "0.1.0"
edition = "2021"
publish = false

[dev-dependencies]
text_unit = "=0.1.10"
