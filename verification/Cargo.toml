[package]
name = "up_transport_zenoh"
version = "0.1.0"
edition = "2021"
publish = false

[dependencies]
anyhow = "=1.0.104"
async-trait = "=0.1.92"
bytes = "=1.12.1"
protobuf = "=3.7.2"
tokio = { version = "=1.54.1", default-features = false, features = ["macros", "rt-multi-thread", "sync", "time"] }
tracing = { version = "=0.1.44", default-features = false }
up-rust = { version = "=0.9.0", default-features = false, features = ["communication"] }
zenoh = { version = "=1.10.2", default-features = false, features = ["unstable"] }
