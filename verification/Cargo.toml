[package]
name = "voicemail"
version = "0.1.0"
edition = "2021"
publish = false

[dependencies]
actix-web = { version = "*", default-features = false, features = ["macros"] }
anyhow = "*"
audio-codec-algorithms = "*"
chrono = "*"
clap = { version = "*", features = ["derive"] }
dotenv = "*"
get_if_addrs = "*"
log = "*"
mime = "*"
r2d2 = "*"
r2d2_sqlite = "*"
rand = "*"
regex = "*"
rsip = "*"
rsipstack = "*"
rusqlite = { version = "*", features = ["bundled", "blob"] }
serde = { version = "*", features = ["derive"] }
tokio = { version = "*", features = ["full"] }
tokio-util = "*"
tracing = "*"
tracing-subscriber = { version = "*", features = ["local-time"] }
