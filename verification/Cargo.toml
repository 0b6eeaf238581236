[package]
name = "manga_shelf_lib"
version = "0.1.0"
edition = "2021"
publish = false

[dependencies]
rusqlite = { version = "*", features = ["bundled", "backup"] }
serde = { version = "1", features = ["derive"] }
sha2 = "0.10"
uuid = { version = "1", features = ["v4"] }
