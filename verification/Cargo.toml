[package]
name = "mnn"
version = "0.1.0"
edition = "2021"
publish = false

[dependencies]
sha2 = "=0.10.9"
thiserror = "=2.0.21"
clap = { version = "=4.6.7", features = ["derive"] }
flume = "=0.11.1"
oneshot = "=0.1.13"
serde = { version = "=1.0.229", features = ["derive"] }
serde_json = "=1.0.154"
build-target = "=0.8.0"
zip = { version = "=9.2.2", default-features = false, features = ["deflate"] }
reqwest = { version = "=0.12.28", default-features = false, features = ["blocking"] }
cc = "1"
cmake = "0.1"
