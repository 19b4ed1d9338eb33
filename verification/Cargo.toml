[package]
name = "signals_transform"
version = "0.1.0"
edition = "2021"
publish = false

[dependencies]
regex = "=1.13.1"
serde = { version = "=1.0.229", features = ["derive"] }
serde_json = "=1.0.154"
swc_core = { version = "=83.0.0", features = ["common", "ecma_ast", "ecma_plugin_transform", "ecma_utils", "ecma_visit"] }

[dev-dependencies]
swc_core = { version = "=83.0.0", features = ["ecma_codegen", "ecma_parser"] }
