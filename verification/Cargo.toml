[package]
name = "nist_time_sync"
version = "0.1.0"
edition = "2021"
publish = false

[dependencies]
chrono = "0.4"
clap = { version = "4", features = ["derive"] }
libc = "0.2"
winapi = { version = "0.3", features = ["minwinbase", "minwindef", "sysinfoapi", "winerror"] }
windows-service = "*"
