[package]
name = "delta_commit"
version = "0.1.0"
edition = "2021"
publish = false

[dependencies]
arrow-array = "*"
arrow-schema = "*"
bytes = "1"
chrono = { version = "0.4", default-features = false, features = ["clock"] }
delta_kernel = "*"
futures = "0.3"
indexmap = "2"
num_cpus = "1"
object_store = "*"
parquet = { version = "*", default-features = false, features = ["arrow", "async", "snap"] }
serde = { version = "1", features = ["derive"] }
serde_json = "1"
thiserror = "2"
tokio = { version = "1", features = ["rt"] }
tracing = "0.1"
uuid = { version = "1", features = ["v4"] }
