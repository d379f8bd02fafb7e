[package]
name = "remote_computer"
version = "0.1.0"
edition = "2021"
publish = false

[dependencies]
anyhow = "*"
axum = { version = "*", features = ["ws"] }
chrono = "*"
dotenvy = "*"
futures-util = { version = "*", features = ["sink"] }
http = "*"
include_dir = "*"
log = "*"
mime_guess = "*"
opener = "*"
rumqttc = { version = "*", default-features = false }
rustls = { version = "*", default-features = false, features = ["ring", "std"] }
serde = { version = "*", features = ["derive"] }
serde_json = "*"
sysinfo = "*"
tokio = { version = "*", features = ["full"] }
toml = "*"
tower-http = { version = "*", features = ["fs", "cors"] }
tracing = "*"
tracing-appender = "*"
tracing-subscriber = { version = "*", features = ["env-filter"] }
volumecontrol = "*"
webbrowser = "*"
