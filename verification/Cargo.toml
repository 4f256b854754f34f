[package]
name = "earbuds"
version = "0.1.0"
edition = "2021"
publish = false

[dependencies]
bluer = { version = "*", default-features = false }
ffmpeg-sys-next = { version = "*", default-features = false, features = ["avcodec"] }
log = "0.4"
serde = { version = "1", features = ["derive"] }
tokio = { version = "1", features = ["macros", "rt", "rt-multi-thread", "sync", "time"] }
