[package]
name = "world_server"
version = "0.1.0"
edition = "2021"
publish = false

[dependencies]
diesel = { version = "1.4", features = ["sqlite"] }
rusqlite = "0.24"
minreq = "2"
serde = { version = "1", features = ["derive"] }
toml = "0.5"
