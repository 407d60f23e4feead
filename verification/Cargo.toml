[package]
name = "tick_tracker"
version = "0.1.0"
edition = "2021"
publish = false

[dependencies]
active-win-pos-rs = "=0.8.4"
chrono = "=0.4.45"
ctrlc = "=3.5.2"
iana-time-zone = "=0.1.65"
reqwest = { version = "=0.12.28", features = ["json"] }
serde = { version = "=1.0.229", features = ["derive"] }
serde_json = "=1.0.154"
tokio = { version = "=1.54.1", features = ["macros", "rt-multi-thread", "sync"] }
whoami = "=2.1.3"
