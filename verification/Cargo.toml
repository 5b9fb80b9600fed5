[package]
name = "winquery"
version = "0.1.0"
edition = "2021"
publish = false

[dependencies]
winapi = { version = "0.3", features = ["minwindef", "ntdef", "ntstatus", "powerbase", "sysinfoapi", "winnt", "ws2def", "wtsapi32"] }
