[package]
name = "swift_file"
version = "0.1.0"
edition = "2021"
publish = false

[dependencies]
uuid = { version = "1", features = ["v4"] }
humansize = "2"
new_mime_guess = "4"
qrcode = { version = "0.12", default-features = false }
chrono = "0.4"
default-net = "0"
anyhow = "1"
axum = { version = "0.6", features = ["multipart"] }
tokio = { version = "1", features = ["full"] }
tokio-util = { version = "0.7", features = ["io"] }
async_zip = { version = "0.0", features = ["tokio", "deflate"] }
clap = { version = "4", features = ["derive"] }
opener = "0.6"
