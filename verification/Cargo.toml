[package]
name = "firehose_indexer"
version = "0.1.0"
edition = "2021"
publish = false

[dependencies]
serde_json = "=1.0.154"
uuid = { version = "=1.29.0", features = ["v4"] }
vader_sentiment = "=0.1.1"
finalfusion = "=0.18.0"
anyhow = "=1.0.104"
tokio = { version = "=1.54.1", features = ["macros", "rt-multi-thread"] }
qdrant-client = "=1.20.0"
websocket = { version = "=0.27.1", default-features = false, features = ["sync"] }

[dev-dependencies]
ndarray = "=0.15.6"
