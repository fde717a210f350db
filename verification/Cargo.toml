[package]
name = "mistral_nvim"
version = "0.1.0"
edition = "2021"
publish = false

[dependencies]
tree-sitter = "*"
tree-sitter-rust = "*"
tree-sitter-language = "*"
serde = { version = "*", features = ["derive"] }
serde_json = "*"
ron = "*"
schemars = "*"
