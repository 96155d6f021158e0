[package]
name = "tasks_tracker"
version = "0.1.0"
edition = "2021"
publish = false

[dependencies]
axum = "0.7"
bincode = { version = "2", features = ["serde"] }
clap = { version = "4", features = ["derive"] }
derive_more = { version = "1", features = ["deref"] }
rand = "0.8"
reqwest = { version = "0.12", default-features = false }
thiserror = "1"
tokio = { version = "1", features = ["macros", "rt-multi-thread", "net", "time"] }
url = { version = "2", features = ["serde"] }
uuid = { version = "1", features = ["v4", "serde"] }
