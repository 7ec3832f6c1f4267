[package]
name = "lightway"
version = "0.1.0"
edition = "2021"
publish = false

[dependencies]
bytes = "=1.12.1"
clap = { version = "=4.6.7", features = ["derive"] }
libc = "=0.2.191"
objc2-core-foundation = "=0.3.2"
objc2-system-configuration = "=0.3.2"
rand = "=0.9.5"
route_manager = { version = "=0.2.17", features = ["async"] }
schemars = "=1.2.3"
serde = { version = "=1.0.229", features = ["derive"] }
thiserror = "=2.0.21"
tokio = { version = "=1.54.1", features = ["rt", "time", "macros"] }
tracing = "=0.1.44"
windows-sys = { version = "=0.61.2", features = ["Win32_Foundation"] }
