[package]
name = "nerdschloss"
version = "0.1.0"
edition = "2021"
publish = false

[dependencies]
anyhow = "=1.0.104"
clap = { version = "=4.6.7", features = ["derive", "env"] }
clap-verbosity-flag = { version = "=3.0.4", features = ["tracing"] }
config = { version = "=0.15.27", default-features = false, features = ["toml"] }
directories-next = "=2.0.0"
dotenvy = "=0.15.7"
notify-debouncer-full = "=0.7.0"
poem = { version = "=3.1.12", features = ["embed"] }
reqwest = { version = "=0.13.5", default-features = false, features = ["json"] }
reqwest-middleware = { version = "=0.5.2", features = ["json"] }
reqwest-retry = "=0.9.1"
reqwest-tracing = "=0.7.1"
retry-policies = "=0.5.2"
rppal = "=0.22.1"
rumqttc = { version = "=0.25.1", default-features = false }
rust-embed = "=8.13.0"
secrecy = "=0.10.3"
serde = { version = "=1.0.229", features = ["derive"] }
serde_json = "=1.0.154"
thiserror = "=2.0.21"
tokio = { version = "=1.54.1", features = ["rt-multi-thread", "macros", "sync", "time"] }
tracing = "=0.1.44"
tracing-journald = "*"
tracing-subscriber = "=0.3.23"
