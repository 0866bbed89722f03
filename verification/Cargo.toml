[package]
name = "minimuxer"
version = "0.1.0"
edition = "2021"
publish = false

[dependencies]
plist = "=1.10.1"
serde = "*"
serde_json = "=1.0.151"
log = "*"
fern = "*"
chrono = { version = "*", default-features = false, features = ["clock"] }
once_cell = "*"
tokio = { version = "*", features = ["rt-multi-thread", "net", "time", "fs", "io-util"] }
reqwest = { version = "*", default-features = false, features = ["blocking", "rustls-tls"] }
zip = { version = "*", default-features = false, features = ["deflate"] }
idevice = { version = "=0.1.68", features = ["full"] }
