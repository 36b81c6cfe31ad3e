[package]
name = "modularize_imports"
version = "0.1.0"
edition = "2021"
publish = false

[dependencies]
regex = "1"
serde = { version = "1", features = ["derive"] }
serde_json = "1"
swc_atoms = "*"
swc_common = "*"
swc_ecma_ast = "*"
