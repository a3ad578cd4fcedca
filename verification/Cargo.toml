[package]
name = "embark_sync"
version = "0.1.0"
edition = "2021"
publish = false

[dependencies]
twilight-model = "*"
twilight-http = "*"
twilight-gateway = "*"
twilight-cache-inmemory = "*"
twilight-standby = "*"
twilight-util = { version = "*", features = ["builder", "permission-calculator"] }
tokio = { version = "1", features = ["rt-multi-thread", "macros"] }
async-trait = "0.1"
tracing = "0.1"
tracing-subscriber = { version = "0.3", features = ["env-filter"] }
tracing-appender = "0.2"
derive-getters = "*"
rusqlite = { version = "*", features = ["bundled"] }
reqwest = "*"
serde = { version = "1", features = ["derive"] }
serde_json = "1"
futures = "0.3"
