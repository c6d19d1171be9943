[package]
name = "sqlite_gateway"
version = "0.1.0"
edition = "2021"
publish = false

[dependencies]
rusqlite = { version = "=0.40.2", features = ["bundled"] }
rusqlite_migration = "=2.6.0"
base64 = "=0.23.1"
uuid = { version = "=1.27.0", features = ["v4"] }
bytemuck = "*"
serde = { version = "=1.0.229", features = ["derive"] }
serde_json = "*"
indexmap = "=2.14.2"

[dev-dependencies]
tempfile = "*"
