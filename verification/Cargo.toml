[package]
name = "twitninf-updater"
version = "0.1.0"
edition = "2021"
publish = false

[dependencies]
idevice = { version = "=0.1.68", features = ["usbmuxd"] }
isideload = "=0.4.6"
reqwest = { version = "=0.13.5", default-features = false, features = ["json"] }
rootcause = "0.12"
rustls = { version = "0.23", default-features = false, features = ["aws_lc_rs", "std"] }
serde = { version = "1", features = ["derive"] }
serde_json = "=1.0.154"
tokio = { version = "1", features = ["macros", "process", "rt-multi-thread", "sync", "time"] }
tracing = { version = "0.1", default-features = false, features = ["std"] }
tracing-subscriber = { version = "0.3", default-features = false, features = ["fmt"] }
