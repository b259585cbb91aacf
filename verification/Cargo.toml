[package]
name = "exoskeleton_host"
version = "0.1.0"
edition = "2021"
publish = false

[dependencies]
serde_json = "=1.0.144"
serde = { version = "=1.0.223", features = ["derive"] }
uuid = { version = "=1.29.0", features = ["v4"] }
chrono = { version = "=0.4.45", default-features = false, features = ["clock", "std"] }
prometheus = { version = "=0.13.4", default-features = false }
reqwest = { version = "0.12", default-features = false, features = ["json", "stream"] }
tokio = { version = "1", features = ["rt", "rt-multi-thread", "sync", "time", "macros"] }
futures-util = "0.3"
tracing = "0.1"
actionqueue-core = "0.1"
actionqueue-executor-local = "0.1"
worldinterface-core = "0.1"
worldinterface-host = "0.1"
