[package]
name = "info_service"
version = "0.1.0"
edition = "2021"
publish = false

[dependencies]
jiff = "*"
sysinfo = "*"
axum = "*"
axum-extra = { version = "*", features = ["typed-header"] }
axum-test = "*"
headers = "*"
http = "*"
tokio = { version = "*", features = ["macros", "rt-multi-thread", "net"] }
tower-http = { version = "*", features = ["trace"] }
tracing = "*"
tracing-subscriber = { version = "*", features = ["env-filter"] }
dotenvy = "*"
eyre = "*"
const_format = "*"
serde = { version = "*", features = ["derive"] }
