[package]
name = "proc_supervisor"
version = "0.1.0"
edition = "2021"
publish = false

[dependencies]
anyhow = "1"
sysinfo = "*"
tokio = { version = "1", features = ["rt-multi-thread", "macros", "process", "sync", "time"] }
