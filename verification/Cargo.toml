[package]
name = "inotify"
version = "0.1.0"
edition = "2021"
publish = false

[dependencies]
futures-core = "0.3"
inotify-sys = "0.1"
libc = "0.2"
mio = "0.6"
tokio = { version = "1", features = ["net"] }
