[package]
name = "goodreads_graphql"
version = "0.1.0"
edition = "2021"
publish = false

[dependencies]
anyhow = "1"
aws-sign-v4 = "*"
chrono = "0.4"
futures = "0.3"
http = "*"
reqwest = { version = "*", default-features = false, features = ["json"] }
serde = { version = "1", features = ["derive"] }
serde_json = { version = "1", features = ["arbitrary_precision"] }
serde_with = "*"
thiserror = "*"
tokio = { version = "1", features = ["macros", "rt", "rt-multi-thread", "sync"] }
tracing = "0.1"
