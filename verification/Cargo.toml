[package]
name = "inventory_ledger"
version = "0.1.0"
edition = "2021"
publish = false

[dependencies]
rusqlite = { version = "*", features = ["bundled"] }
serde = { version = "1", features = ["derive"] }
serde_json = "1"
slint = { version = "*", default-features = false, features = ["std", "compat-1-2"] }

[dev-dependencies]
tempfile = "3"
