[package]
name = "alexandria_db"
version = "0.1.0"
edition = "2021"
publish = false

[dependencies]
rusqlite = "0.32"
serde = { version = "1", features = ["derive"] }
serde_json = { version = "1", features = ["preserve_order"] }
tokio = { version = "1", features = ["macros", "rt-multi-thread"] }
warp = { version = "0.3", default-features = false }
