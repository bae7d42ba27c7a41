[package]
name = "zapret_core"
version = "0.1.0"
edition = "2021"
publish = false

[dependencies]
dirs = "*"
regex = "1"
reqwest = "0.12"
serde = { version = "1", features = ["derive"] }
serde_json = "1"
sha2 = "0.10"
windows = { version = "*", features = ["Win32_Foundation", "Win32_Security", "Win32_System_Threading"] }
