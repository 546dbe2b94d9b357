[package]
name = "naia_supervisor"
version = "0.1.0"
edition = "2021"
publish = false

[dependencies]
getrandom = "*"
libc = "*"
reqwest = { version = "*", default-features = false, features = ["blocking"] }
rusqlite = { version = "*", features = ["bundled"] }
serde = { version = "*", features = ["derive"] }
serde_json = "*"
url = "*"
