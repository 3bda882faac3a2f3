[package]
name = "qwen"
version = "0.1.0"
edition = "2021"
publish = false

[dependencies]
reqwest = { version = "0.12", features = ["json", "stream"] }
serde = { version = "1", features = ["derive"] }
serde_json = "1"
thiserror = "1"
url = "2"
futures-util = "0.3"
eventsource-stream = "0.2"
tokio = { version = "1", features = ["macros", "rt", "rt-multi-thread"] }
clap = { version = "4", features = ["derive"] }
rustyline = "*"
