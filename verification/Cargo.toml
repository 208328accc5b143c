[package]
name = "text_style"
version = "0.3.0"
edition = "2021"
publish = false

[dependencies]
ansi_term = "0.12"
colored = "2"
crossterm = "0.17"
cursive = { version = "0.15", default-features = false }
genpdf = "0.2"
syntect = { version = "4", default-features = false }
