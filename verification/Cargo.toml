[package]
name = "hyperindex"
version = "0.1.0"
edition = "2021"
publish = false

[dependencies]
sha2 = "=0.10.9"
tree-sitter = "=0.27.1"
tree-sitter-typescript = "=0.23.2"
rusqlite = { version = "*", features = ["bundled"] }
