[package]
name = "process_supervisor"
version = "0.1.0"
edition = "2021"
publish = false

[dependencies]
anyhow = "1"
log = "0.4"
serde_json = "1"
tokio = { version = "1", features = ["macros", "rt-multi-thread", "time", "signal", "sync"] }
