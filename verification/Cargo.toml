[package]
name = "rig-libsql"
version = "0.1.0"
edition = "2021"
publish = false

[dependencies]
libsql = { version = "0.9", default-features = false, features = ["core"] }
rig-core = { version = "0.41", default-features = false }
serde = { version = "1", features = ["derive"] }
serde_json = "1"
tracing = "0.1"
zerocopy = "0.8"

[dev-dependencies]
tokio = { version = "1", features = ["rt"] }
