[package]
name = "kokoro_bridge"
version = "0.1.0"
edition = "2021"
publish = false

[dependencies]
jni = "0.22"
tokio = { version = "1", features = ["rt-multi-thread"] }
log = "0.4"
android_logger = "0.15"
ort = { version = "=2.0.0-rc.13", default-features = false, features = ["load-dynamic", "cuda"] }
