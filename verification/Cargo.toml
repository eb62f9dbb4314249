[package]
name = "bit7z_archiver"
version = "0.1.0"
edition = "2021"
publish = false

[dependencies]
crc32fast = "1"
secrecy = "0.10"
chrono = "0.4"
serde = { version = "1", features = ["derive"] }
serde_json = "1"
clap = { version = "4", features = ["derive"] }
crossbeam = "0.8"
directories = "*"
humansize = "2"
thiserror = "*"
