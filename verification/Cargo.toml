[package]
name = "plexo_core"
version = "0.1.0"
edition = "2021"
publish = false

[dependencies]
uuid = { version = "=1.29.1", features = ["v4"] }
chrono = "=0.4.45"
serde_json = "=1.0.154"
thiserror = "=1.0.69"
reqwest = { version = "=0.12.28", default-features = false, features = ["json"] }
poem = { version = "=3.1.12", default-features = false, features = ["server", "cookie"] }
poem-openapi = { version = "=5.1.16", features = ["swagger-ui"] }
async-graphql = { version = "=7.2.1", default-features = false }
plexo-sdk = "=0.5.2"
tokio = { version = "=1.54.1", features = ["macros", "rt-multi-thread"] }
tokio-stream = "=0.1.19"
futures-util = "=0.3.34"
tracing = "=0.1.44"
dotenv = "=0.15.0"
