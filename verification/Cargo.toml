[package]
name = "relay_plugin"
version = "0.1.0"
edition = "2021"
publish = false

[dependencies]
chrono = "*"
libloading = "*"
log = "*"
reqwest = { version = "*", default-features = false, features = ["stream"] }
schemars = "*"
semver = "*"
serde = { version = "*", features = ["derive"] }
serde_json = "*"
sha2 = "*"
thiserror = "*"
tokio = { version = "*", features = ["rt-multi-thread", "sync", "time", "net", "process", "io-util", "macros"] }
toml = "*"
uuid = { version = "*", features = ["v7"] }
