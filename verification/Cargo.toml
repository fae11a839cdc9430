[package]
name = "datavir"
version = "0.1.0"
edition = "2021"
publish = false

[dependencies]
rusqlite = { version = "=0.28.0", features = ["modern_sqlite"] }
uuid = { version = "=1.29.0", features = ["v1", "v4"] }
libc = "=0.2.191"
fuser = { version = "=0.15.1", default-features = false }
log = "=0.4.34"
fern = { version = "=0.6.2", features = ["colored"] }
chrono = "=0.4.45"
clap = "=2.34.0"
