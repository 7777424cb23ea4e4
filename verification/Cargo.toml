[package]
name = "xadmin"
version = "0.1.0"
edition = "2021"
publish = false

[dependencies]
encoding_rs = "0.8"
uuid = { version = "1", features = ["v4"] }
serde = { version = "1", features = ["derive"] }
serde_json = "1"
sysinfo = "0.30"
rusqlite = { version = "0.31", features = ["bundled"] }
portable-pty = "0.8"
tempfile = "3"
raw-cpuid = "11"
chrono = "0.4"
winapi = { version = "0.3", features = ["processthreadsapi", "winnt", "handleapi", "pdh"] }
