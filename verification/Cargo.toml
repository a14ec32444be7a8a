[package]
name = "bonaventure"
version = "0.1.0"
edition = "2021"
publish = false

[dependencies]
textwrap = { version = "0.11", features = ["term_size"] }
rustyline = "*"
