[package]
name = "rustomato"
version = "0.1.0"
edition = "2021"
publish = false

[dependencies]
rusqlite = { version = "=0.40.2", features = ["bundled", "fallible_uint"] }
uuid = { version = "=1.27.0", features = ["v4"] }
psutil = "=5.4.0"
chrono = "=0.4.45"
clap = { version = "=4.6.7", features = ["derive"] }
ctrlc = "=3.5.2"
dirs = "=7.0.0"
pbr = "=1.1.1"
url = "=2.5.8"
