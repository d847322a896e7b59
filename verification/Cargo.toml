[package]
name = "era_connect"
version = "0.1.0"
edition = "2021"
publish = false

[dependencies]
sha1 = "=0.10.7"
hex = "=0.4.3"
url = "=2.5.8"
semver = "=1.0.28"
xml-rs = "=0.8.29"
tracing = "=0.1.44"
regex = "=1.13.1"
serde = { version = "=1.0.229", features = ["derive"] }
serde_json = "=1.0.154"
chrono = { version = "=0.4.45", features = ["serde"] }
tokio = { version = "=1.54.1", features = ["fs", "process", "io-util", "time", "rt", "macros", "sync"] }
reqwest = { version = "=0.12.28", default-features = false }
zip = { version = "=2.6.1", default-features = false, features = ["deflate"] }
os-version = "=0.2.1"
rand = "=0.8.8"
dirs = "=5.0.1"
uuid = { version = "=1.29.0", features = ["serde"] }
image = { version = "0.25", default-features = false, features = ["png"] }
