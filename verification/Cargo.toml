[package]
name = "coderlm_server"
version = "0.1.0"
edition = "2021"
publish = false

[dependencies]
anyhow = "1"
chrono = { version = "0.4", features = ["serde"] }
dashmap = "6"
fuzzy-matcher = "0.3"
parking_lot = "0.12"
rayon = "1"
serde = { version = "1", features = ["derive"] }
serde_json = "1"
tokio = { version = "1", features = ["rt", "rt-multi-thread", "macros"] }
tracing = "0.1"
tree-sitter = "*"
tree-sitter-vue-updated = "*"
