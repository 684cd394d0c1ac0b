[package]
name = "usage_applet"
version = "0.1.0"
edition = "2021"
publish = false

[dependencies]
sysinfo = "*"
tokio = { version = "*", features = ["rt", "time", "macros", "sync"] }
