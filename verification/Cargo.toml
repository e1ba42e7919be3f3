[package]
name = "kangbot"
version = "0.1.0"
edition = "2021"
publish = false
rust-version = "1.95"

[dependencies]
chrono = { version = "=0.4.45", default-features = false, features = ["clock", "std"] }
teloxide = { version = "=0.17.0", features = ["macros", "throttle", "webhooks-axum"] }
takecell = "=0.1.1"
dptree = "=0.5.1"
tokio = { version = "=1.54.1", features = ["full"] }
tracing = "=0.1.44"
tracing-subscriber = "=0.3.23"
dotenvy = "=0.15.7"
mimalloc = "=0.1.52"
url = "=2.5.8"
thiserror = "=2.0.21"
async-trait = "=0.1.92"
libsql = { version = "=0.10.0", default-features = false, features = ["core", "remote"] }
sqlx = { version = "=0.8.6", default-features = false, features = ["derive"] }
moka = { version = "=0.12.16", features = ["future"] }
sysinfo = "=0.40.1"
tempfile = "=3.27.0"
image = { version = "=0.25.10", default-features = false, features = ["webp", "png", "jpeg"] }
ffmpeg-next = "=9.0.0"
