[package]
name = "yudian_ai_tool"
version = "0.1.0"
edition = "2021"
publish = false

[dependencies]
async-trait = "=0.1.92"
serde = { version = "=1.0.229", features = ["derive"] }
serialport = { version = "=4.10.1", default-features = false }
thiserror = "=2.0.21"
tokio = { version = "=1.54.1", features = ["macros", "rt", "sync", "time"] }
tokio-modbus = { version = "=0.17.0", default-features = false, features = ["rtu"] }
tokio-serial = { version = "=5.5.0", default-features = false }
tracing = "=0.1.44"
