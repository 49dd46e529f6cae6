[package]
name = "ntp_client"
version = "0.1.0"
edition = "2021"
publish = false

[dependencies]
rand = "0.8"
tokio = { version = "1", features = ["rt-multi-thread", "macros", "net", "sync", "time", "io-util"] }
serde = { version = "1", features = ["derive"] }
serde_json = "1"
tracing = "0.1"
libc = "0.2"
exitcode = "1"
chrono = { version = "0.4", default-features = false, features = ["clock"] }
tokio-serial = "5.4"
