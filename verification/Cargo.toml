[package]
name = "heif_server"
version = "0.1.0"
edition = "2021"
publish = false

[dependencies]
libheif-rs = "*"
mozjpeg = { version = "*", default-features = false }
kamadak-exif = "*"
anyhow = "*"
thiserror = "*"
pretty-bytes = "*"
humantime = "*"
dotenv = "*"
tokio = { version = "*", features = ["macros", "rt-multi-thread", "fs", "io-util", "time"] }
tonic = "*"
tracing = "*"
tracing-subscriber = "*"
